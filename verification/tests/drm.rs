use linux_drm::discovery::{chosen_crtc, CrtcGroup, CrtcQuery, CrtcSearch, IdSearch, IdSearchStep};
use linux_drm::drm::{
    drmModeConnection, drmModeConnector, drmModeCrtc, drmModeEncoder, drmModeModeInfo, drmModeRes,
    drmModeSubPixel, frees_on_drop, DRM_DISPLAY_MODE_LEN,
};

fn mode(name: &str) -> drmModeModeInfo {
    let mut bytes = [0u8; DRM_DISPLAY_MODE_LEN];
    bytes[..name.len()].copy_from_slice(name.as_bytes());
    drmModeModeInfo {
        clock: 148500,
        hdisplay: 1920,
        hsync_start: 2008,
        hsync_end: 2052,
        htotal: 2200,
        hskew: 0,
        vdisplay: 1080,
        vsync_start: 1084,
        vsync_end: 1089,
        vtotal: 1125,
        vscan: 0,
        vrefresh: 60,
        flags: 5,
        type_: 72,
        name: bytes,
    }
}

fn encoder(encoder_id: u32, possible_crtcs: u32) -> drmModeEncoder {
    drmModeEncoder { encoder_id, encoder_type: 2, crtc_id: 0, possible_crtcs, possible_clones: 0 }
}

fn connector(encoder_id: u32, connection: drmModeConnection, modes: usize) -> drmModeConnector {
    drmModeConnector {
        connector_id: 77,
        encoder_id,
        connector_type: 11,
        connector_type_id: 1,
        connection,
        mmWidth: 510,
        mmHeight: 287,
        subpixel: drmModeSubPixel::DRM_MODE_SUBPIXEL_UNKNOWN,
        modes: vec![mode("1920x1080"); modes],
        props: vec![],
        prop_values: vec![],
        encoders: vec![encoder_id],
    }
}

fn crtc(crtc_id: u32, mode_valid: i32) -> drmModeCrtc {
    drmModeCrtc {
        crtc_id,
        buffer_id: 90,
        x: 3,
        y: 4,
        width: 1920,
        height: 1080,
        mode_valid,
        mode: mode("1920x1080"),
        gamma_size: 256,
    }
}

fn resources(connectors: &[u32], encoders: &[u32], crtcs: &[u32]) -> drmModeRes {
    drmModeRes {
        fbs: vec![],
        crtcs: crtcs.to_vec(),
        connectors: connectors.to_vec(),
        encoders: encoders.to_vec(),
        min_width: 0,
        max_width: 8192,
        min_height: 0,
        max_height: 8192,
    }
}

#[test]
fn ids_of_resources() {
    let resources = resources(&[1, 2], &[3], &[4, 5, 6]);
    assert_eq!(resources.connector_ids(), &[1, 2]);
    assert_eq!(resources.encoder_ids(), &[3]);
    assert_eq!(resources.crtc_ids(), &[4, 5, 6]);
}

#[test]
fn names_of_modes() {
    assert_eq!(mode("1920x1080").name(), b"1920x1080");
    assert_eq!(mode("").name(), b"");
    let long = "x".repeat(DRM_DISPLAY_MODE_LEN - 1);
    assert_eq!(mode(&long).name(), long.as_bytes());
}

#[test]
fn modes_of_a_connector() {
    let connector = connector(1, drmModeConnection::DRM_MODE_CONNECTED, 2);
    assert_eq!(connector.modes().len(), 2);
    assert_eq!(connector.modes()[1].name(), b"1920x1080");
}

#[test]
fn possible_crtcs_are_bits() {
    let encoder = encoder(1, 0x8000_0005);
    let possible: Vec<usize> = (0..32).filter(|&i| encoder.has_crtc(i)).collect();
    assert_eq!(possible, vec![0, 2, 31]);
}

#[test]
fn the_last_handle_frees() {
    for handles in 1..5 {
        let frees = (1..=handles).rev().filter(|&left| frees_on_drop(left)).count();
        assert_eq!(frees, 1);
    }
    assert!(!frees_on_drop(2));
}

fn search_connector(replies: &[Option<drmModeConnector>]) -> (usize, IdSearchStep) {
    let ids: Vec<u32> = (0..replies.len() as u32).map(|i| 100 + i).collect();
    let resources = resources(&ids, &[], &[]);
    let mut search = IdSearch::new();
    let mut step = search.current(resources.connector_ids());
    let mut asked = 0;
    while let IdSearchStep::Ask(id) = step {
        assert_eq!(id, 100 + asked as u32);
        step = search.find_connected_connector(&resources, replies[asked].as_ref());
        asked += 1;
    }
    (asked, step)
}

#[test]
fn first_connected_connector_is_found() {
    let connected = || Some(connector(1, drmModeConnection::DRM_MODE_CONNECTED, 1));
    let (asked, step) = search_connector(&[
        None,
        Some(connector(1, drmModeConnection::DRM_MODE_DISCONNECTED, 3)),
        Some(connector(1, drmModeConnection::DRM_MODE_UNKNOWNCONNECTION, 3)),
        Some(connector(1, drmModeConnection::DRM_MODE_CONNECTED, 0)),
        connected(),
        connected(),
    ]);
    assert_eq!((asked, step), (5, IdSearchStep::Found));
}

#[test]
fn no_connector_is_found() {
    assert_eq!(search_connector(&[]), (0, IdSearchStep::Exhausted));
    assert_eq!(search_connector(&[None, None]), (2, IdSearchStep::Exhausted));
}

#[test]
fn attached_encoder_is_found() {
    let resources = resources(&[], &[5, 6, 7], &[]);
    let connector = connector(6, drmModeConnection::DRM_MODE_CONNECTED, 1);
    let mut search = IdSearch::new();
    assert_eq!(search.current(resources.encoder_ids()), IdSearchStep::Ask(5));
    let step = search.find_encoder_for_connector(&resources, &connector, None);
    assert_eq!(step, IdSearchStep::Ask(6));
    let step = search.find_encoder_for_connector(&resources, &connector, Some(&encoder(9, 1)));
    assert_eq!(step, IdSearchStep::Ask(7));
    let step = search.find_encoder_for_connector(&resources, &connector, Some(&encoder(6, 1)));
    assert_eq!(step, IdSearchStep::Found);
    assert_eq!(search.passed, 2);
}

#[test]
fn detached_connector_has_no_encoder() {
    let resources = resources(&[], &[5], &[]);
    let connector = connector(0, drmModeConnection::DRM_MODE_CONNECTED, 1);
    let mut search = IdSearch::new();
    let step = search.find_encoder_for_connector(&resources, &connector, Some(&encoder(5, 1)));
    assert_eq!(step, IdSearchStep::Exhausted);
}

#[test]
fn crtcs_are_grouped_by_encoder() {
    let resources = resources(&[], &[5, 6, 7], &[50, 51, 52]);
    let encoders = [Some(encoder(5, 0b101)), None, Some(encoder(7, 0b010))];
    let crtcs = [Some(crtc(50, 1)), None, Some(crtc(52, 0))];
    let mut search = CrtcSearch::new();
    let mut queries = Vec::new();
    loop {
        let query = search.next_query(&resources);
        queries.push(query);
        match query {
            CrtcQuery::Encoder(id) => search.answer_encoder(&resources, encoders[id as usize - 5]),
            CrtcQuery::Crtc(id) => search.answer_crtc(&resources, crtcs[id as usize - 50]),
            CrtcQuery::Done => break,
        }
    }
    assert_eq!(
        queries,
        vec![
            CrtcQuery::Encoder(5),
            CrtcQuery::Crtc(50),
            CrtcQuery::Crtc(52),
            CrtcQuery::Encoder(6),
            CrtcQuery::Encoder(7),
            CrtcQuery::Crtc(51),
            CrtcQuery::Done,
        ]
    );
    let found: Vec<(u32, Vec<u32>)> = search
        .found
        .iter()
        .map(|group| {
            (group.encoder.encoder_id, group.crtcs.iter().map(|crtc| crtc.crtc_id).collect())
        })
        .collect();
    assert_eq!(found, vec![(5, vec![50]), (7, vec![])]);
    assert_eq!(chosen_crtc(&search.found).crtc_id, 50);
}

#[test]
fn cards_without_encoders_have_no_groups() {
    let mut search = CrtcSearch::new();
    assert_eq!(search.next_query(&resources(&[], &[], &[50])), CrtcQuery::Done);
    assert!(search.found.is_empty());
}

#[test]
fn first_crtc_of_first_encoder_is_chosen() {
    let groups = vec![
        CrtcGroup { encoder: encoder(1, 3), crtcs: vec![crtc(8, 1), crtc(9, 1)] },
        CrtcGroup { encoder: encoder(2, 3), crtcs: vec![crtc(10, 1)] },
    ];
    assert_eq!(chosen_crtc(&groups).crtc_id, 8);
}
