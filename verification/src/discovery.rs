//! Finding the connector, the encoder and the CRTC to draw on.
//!
//! A search does not talk to the hardware. It says what to ask for next and is told the
//! answer.

use vstd::prelude::*;

use crate::drm::{drmModeConnection, drmModeConnector, drmModeCrtc, drmModeEncoder, drmModeRes};

verus! {

/// What a search through a list of ids wants next.
#[derive(Debug, Copy, Clone, PartialEq, Eq, Structural)]
pub enum IdSearchStep {
    /// Look at the object with this id.
    Ask(u32),
    /// The object that was looked at last is the one.
    Found,
    /// There is no such object.
    Exhausted,
}

/// The step of a search that has passed over the first `passed` of `ids`.
pub open spec fn ask_at(ids: Seq<u32>, passed: int) -> IdSearchStep {
    if passed < ids.len() {
        IdSearchStep::Ask(ids[passed])
    } else {
        IdSearchStep::Exhausted
    }
}

/// The step that follows once the object at `passed` has been looked at.
pub open spec fn step_after(ids: Seq<u32>, passed: int, accepted: bool) -> IdSearchStep {
    if accepted {
        IdSearchStep::Found
    } else {
        ask_at(ids, passed + 1)
    }
}

/// How many objects have been passed over once the object at `passed` has been looked at.
pub open spec fn passed_after(passed: int, accepted: bool) -> int {
    if accepted {
        passed
    } else {
        passed + 1
    }
}

/// A search through a list of ids for the first object that is accepted.
#[derive(Debug)]
pub struct IdSearch {
    /// How many objects have been looked at and not accepted.
    pub passed: usize,
}

impl IdSearch {
    /// A search that has not looked at anything.
    pub fn new() -> (search: IdSearch)
        ensures
            search.passed == 0,
    {
        IdSearch { passed: 0 }
    }

    /// What to look at, before an answer to it is known.
    pub fn current(&self, ids: &[u32]) -> (step: IdSearchStep)
        ensures
            step == ask_at(ids@, self.passed as int),
    {
        if self.passed < ids.len() {
            IdSearchStep::Ask(ids[self.passed])
        } else {
            IdSearchStep::Exhausted
        }
    }

    /// Goes on after an object has been looked at.
    fn advance(&mut self, ids: &[u32], accepted: bool) -> (step: IdSearchStep)
        requires
            old(self).passed < ids@.len(),
        ensures
            final(self).passed == passed_after(old(self).passed as int, accepted),
            step == step_after(ids@, old(self).passed as int, accepted),
    {
        if accepted {
            IdSearchStep::Found
        } else {
            assert(ids.len() == ids@.len());
            self.passed = self.passed + 1;
            self.current(ids)
        }
    }

    /// Goes on with the search for a connected connector, given the connector that was asked
    /// for, if the card has it.
    pub fn find_connected_connector(
        &mut self,
        resources: &drmModeRes,
        connector: Option<&drmModeConnector>,
    ) -> (step: IdSearchStep)
        requires
            old(self).passed < resources.connectors@.len(),
        ensures
            final(self).passed == passed_after(old(self).passed as int, is_usable(connector)),
            step == step_after(
                resources.connectors@,
                old(self).passed as int,
                is_usable(connector),
            ),
            step == IdSearchStep::Found <==> (connector matches Some(c) && c.connection
                == drmModeConnection::DRM_MODE_CONNECTED && c.modes@.len() > 0),
    {
        let accepted = match connector {
            Some(connector) => connector.connection == drmModeConnection::DRM_MODE_CONNECTED
                && connector.modes.len() > 0,
            None => false,
        };
        self.advance(resources.connector_ids(), accepted)
    }

    /// Goes on with the search for the encoder that a connector is attached to, given the
    /// encoder that was asked for, if the card has it.
    pub fn find_encoder_for_connector(
        &mut self,
        resources: &drmModeRes,
        connector: &drmModeConnector,
        encoder: Option<&drmModeEncoder>,
    ) -> (step: IdSearchStep)
        requires
            old(self).passed < resources.encoders@.len(),
        ensures
            final(self).passed == passed_after(
                old(self).passed as int,
                is_attached(encoder, *connector),
            ),
            step == step_after(
                resources.encoders@,
                old(self).passed as int,
                is_attached(encoder, *connector),
            ),
            step == IdSearchStep::Found <==> (encoder matches Some(e) && e.encoder_id
                == connector.encoder_id),
    {
        let accepted = match encoder {
            Some(encoder) => encoder.encoder_id == connector.encoder_id,
            None => false,
        };
        self.advance(resources.encoder_ids(), accepted)
    }
}

/// A connector that can be drawn on: a display is plugged in and it has a mode.
pub open spec fn is_usable(connector: Option<&drmModeConnector>) -> bool {
    match connector {
        Some(connector) => connector.connection == drmModeConnection::DRM_MODE_CONNECTED
            && connector.modes@.len() > 0,
        None => false,
    }
}

/// An encoder that `connector` is attached to.
pub open spec fn is_attached(
    encoder: Option<&drmModeEncoder>,
    connector: drmModeConnector,
) -> bool {
    match encoder {
        Some(encoder) => encoder.encoder_id == connector.encoder_id,
        None => false,
    }
}

/// Where a search ends that has passed over the first `passed` of `ids`, if `accepted` says
/// which of the objects are accepted: at the position of an object, or nowhere.
pub open spec fn search_run(ids: Seq<u32>, accepted: spec_fn(int) -> bool, passed: int) -> Option<
    int,
>
    decreases ids.len() - passed,
{
    match ask_at(ids, passed) {
        IdSearchStep::Ask(_) => match step_after(ids, passed, accepted(passed)) {
            IdSearchStep::Found => Some(passed),
            _ => search_run(ids, accepted, passed_after(passed, false)),
        },
        _ => None,
    }
}

/// A search ends at the first object that is accepted, and fails only if none is.
pub proof fn law_search_finds_first(ids: Seq<u32>, accepted: spec_fn(int) -> bool)
    ensures
        match search_run(ids, accepted, 0) {
            Some(found) => {
                &&& 0 <= found < ids.len()
                &&& accepted(found)
                &&& forall|i: int| 0 <= i < found ==> !#[trigger] accepted(i)
            },
            None => forall|i: int| 0 <= i < ids.len() ==> !#[trigger] accepted(i),
        },
{
    lemma_search_run(ids, accepted, 0);
}

proof fn lemma_search_run(ids: Seq<u32>, accepted: spec_fn(int) -> bool, passed: int)
    requires
        0 <= passed <= ids.len(),
    ensures
        match search_run(ids, accepted, passed) {
            Some(found) => {
                &&& passed <= found < ids.len()
                &&& accepted(found)
                &&& forall|i: int| passed <= i < found ==> !#[trigger] accepted(i)
            },
            None => forall|i: int| passed <= i < ids.len() ==> !#[trigger] accepted(i),
        },
    decreases ids.len() - passed,
{
    if passed < ids.len() && !accepted(passed) {
        lemma_search_run(ids, accepted, passed + 1);
    }
}

/// An encoder with the CRTCs that can drive it.
#[derive(Debug)]
pub struct CrtcGroup {
    pub encoder: drmModeEncoder,
    pub crtcs: Vec<drmModeCrtc>,
}

impl View for CrtcGroup {
    type V = (drmModeEncoder, Seq<drmModeCrtc>);

    open spec fn view(&self) -> (drmModeEncoder, Seq<drmModeCrtc>) {
        (self.encoder, self.crtcs@)
    }
}

/// What the search for CRTCs wants next.
#[derive(Debug, Copy, Clone, PartialEq, Eq, Structural)]
pub enum CrtcQuery {
    /// Look at the encoder with this id.
    Encoder(u32),
    /// Look at the CRTC with this id.
    Crtc(u32),
    /// Everything has been looked at.
    Done,
}

/// A search for the CRTCs that can drive each encoder of a card.
#[derive(Debug)]
pub struct CrtcSearch {
    /// How many encoders have been looked at.
    pub encoders_passed: usize,
    /// The encoder whose CRTCs are being looked at, with those that can drive it.
    pub current: Option<CrtcGroup>,
    /// How many CRTCs have been passed for that encoder.
    pub crtcs_passed: usize,
    /// The encoders that are done with.
    pub found: Vec<CrtcGroup>,
}

/// The state of a search for CRTCs.
#[verifier::ext_equal]
pub ghost struct CrtcSearchState {
    pub encoders_passed: int,
    pub current: Option<(drmModeEncoder, Seq<drmModeCrtc>)>,
    pub crtcs_passed: int,
    pub found: Seq<(drmModeEncoder, Seq<drmModeCrtc>)>,
}

/// The groups as plain sequences.
pub open spec fn groups_view(groups: Seq<CrtcGroup>) -> Seq<(drmModeEncoder, Seq<drmModeCrtc>)> {
    groups.map_values(|group: CrtcGroup| group@)
}

impl View for CrtcSearch {
    type V = CrtcSearchState;

    open spec fn view(&self) -> CrtcSearchState {
        CrtcSearchState {
            encoders_passed: self.encoders_passed as int,
            current: match self.current {
                Some(group) => Some(group@),
                None => None,
            },
            crtcs_passed: self.crtcs_passed as int,
            found: groups_view(self.found@),
        }
    }
}

/// The first position from `from` on at which `encoder` can be driven by the CRTC, or `count`.
pub open spec fn next_possible(encoder: drmModeEncoder, from: int, count: int) -> int
    decreases count - from,
{
    if from >= count {
        count
    } else if crate::drm::bit_is_set(encoder.possible_crtcs, from as nat) {
        from
    } else {
        next_possible(encoder, from + 1, count)
    }
}

impl CrtcSearchState {
    /// The state at the start.
    pub open spec fn start() -> CrtcSearchState {
        CrtcSearchState {
            encoders_passed: 0,
            current: None,
            crtcs_passed: 0,
            found: Seq::empty(),
        }
    }

    /// The search lies within a card with the given numbers of encoders and CRTCs.
    pub open spec fn within(self, encoders: int, crtcs: int) -> bool {
        &&& 0 <= self.encoders_passed <= encoders
        &&& 0 <= self.crtcs_passed <= crtcs
        &&& self.current is Some ==> 0 < self.encoders_passed
    }

    /// The state once CRTCs that cannot drive the current encoder are passed over. Where none
    /// is left, the encoder is done with.
    pub open spec fn settled(self, crtcs: int) -> CrtcSearchState {
        match self.current {
            Some(group) => {
                let next = next_possible(group.0, self.crtcs_passed, crtcs);
                if next < crtcs {
                    CrtcSearchState { crtcs_passed: next, ..self }
                } else {
                    CrtcSearchState {
                        current: None,
                        crtcs_passed: crtcs,
                        found: self.found.push(group),
                        ..self
                    }
                }
            },
            None => self,
        }
    }

    /// What a settled search wants next.
    pub open spec fn query(self, encoder_ids: Seq<u32>, crtc_ids: Seq<u32>) -> CrtcQuery {
        if self.current is Some && self.crtcs_passed < crtc_ids.len() {
            CrtcQuery::Crtc(crtc_ids[self.crtcs_passed])
        } else if self.encoders_passed < encoder_ids.len() {
            CrtcQuery::Encoder(encoder_ids[self.encoders_passed])
        } else {
            CrtcQuery::Done
        }
    }

    /// The state once an encoder has been looked at.
    pub open spec fn after_encoder(self, encoder: Option<drmModeEncoder>) -> CrtcSearchState {
        match encoder {
            Some(encoder) => CrtcSearchState {
                encoders_passed: self.encoders_passed + 1,
                current: Some((encoder, Seq::empty())),
                crtcs_passed: 0,
                ..self
            },
            None => CrtcSearchState { encoders_passed: self.encoders_passed + 1, ..self },
        }
    }

    /// The state once a CRTC has been looked at: it counts if it exists and has a valid mode.
    pub open spec fn after_crtc(self, crtc: Option<drmModeCrtc>) -> CrtcSearchState {
        let group = self.current->0;
        CrtcSearchState {
            current: Some((group.0, group.1 + valid_crtc(crtc))),
            crtcs_passed: self.crtcs_passed + 1,
            ..self
        }
    }
}

/// A CRTC that exists and has a valid mode, on its own, or nothing.
pub open spec fn valid_crtc(crtc: Option<drmModeCrtc>) -> Seq<drmModeCrtc> {
    match crtc {
        Some(crtc) if crtc.mode_valid != 0 => seq![crtc],
        _ => Seq::empty(),
    }
}

impl CrtcSearch {
    /// A search that has not looked at anything.
    pub fn new() -> (search: CrtcSearch)
        ensures
            search@ == CrtcSearchState::start(),
    {
        let search = CrtcSearch {
            encoders_passed: 0,
            current: None,
            crtcs_passed: 0,
            found: Vec::new(),
        };
        assert(search@.found =~= Seq::empty());
        search
    }

    /// Goes on to the next thing to look at. An encoder's mask has room for 32 CRTCs.
    pub fn next_query(&mut self, resources: &drmModeRes) -> (query: CrtcQuery)
        requires
            old(self)@.current is Some ==> resources.crtcs@.len() <= 32,
            old(self)@.within(
                resources.encoders@.len() as int,
                resources.crtcs@.len() as int,
            ),
        ensures
            final(self)@ == old(self)@.settled(resources.crtcs@.len() as int),
            final(self)@.within(
                resources.encoders@.len() as int,
                resources.crtcs@.len() as int,
            ),
            query == final(self)@.query(resources.encoders@, resources.crtcs@),
    {
        let encoder_ids = resources.encoder_ids();
        let crtc_ids = resources.crtc_ids();
        if let Some(group) = self.current.take() {
            let encoder = group.encoder;
            let mut i: usize = self.crtcs_passed;
            while i < crtc_ids.len() && !encoder.has_crtc(i)
                invariant
                    i <= crtc_ids@.len() <= 32,
                    next_possible(encoder, i as int, crtc_ids@.len() as int) == next_possible(
                        encoder,
                        self.crtcs_passed as int,
                        crtc_ids@.len() as int,
                    ),
                decreases crtc_ids@.len() - i,
            {
                i += 1;
            }
            self.crtcs_passed = i;
            if i < crtc_ids.len() {
                self.current = Some(group);
                return CrtcQuery::Crtc(crtc_ids[i]);
            }
            let ghost found = self.found@;
            self.found.push(group);
            proof {
                assert(groups_view(self.found@) =~= groups_view(found).push(group@));
            }
        }
        if self.encoders_passed < encoder_ids.len() {
            CrtcQuery::Encoder(encoder_ids[self.encoders_passed])
        } else {
            CrtcQuery::Done
        }
    }

    /// Takes the encoder that was asked for, if the card has it.
    pub fn answer_encoder(&mut self, resources: &drmModeRes, encoder: Option<drmModeEncoder>)
        requires
            old(self)@.within(
                resources.encoders@.len() as int,
                resources.crtcs@.len() as int,
            ),
            old(self)@.query(resources.encoders@, resources.crtcs@) is Encoder,
        ensures
            final(self)@ == old(self)@.after_encoder(encoder),
            final(self)@.within(
                resources.encoders@.len() as int,
                resources.crtcs@.len() as int,
            ),
    {
        assert(resources.encoders.len() == resources.encoders@.len());
        self.encoders_passed = self.encoders_passed + 1;
        if let Some(encoder) = encoder {
            let group = CrtcGroup { encoder, crtcs: Vec::new() };
            assert(group@ == (encoder, Seq::<drmModeCrtc>::empty()));
            self.current = Some(group);
            self.crtcs_passed = 0;
        }
    }

    /// Takes the CRTC that was asked for, if the card has it.
    pub fn answer_crtc(&mut self, resources: &drmModeRes, crtc: Option<drmModeCrtc>)
        requires
            old(self)@.within(
                resources.encoders@.len() as int,
                resources.crtcs@.len() as int,
            ),
            old(self)@.query(resources.encoders@, resources.crtcs@) is Crtc,
        ensures
            final(self)@ == old(self)@.after_crtc(crtc),
            (crtc matches Some(c) && c.mode_valid != 0) ==> (final(self)@.current->0).1 == (old(
                self,
            )@.current->0).1.push(crtc->0),
            !(crtc matches Some(c) && c.mode_valid != 0) ==> final(self)@.current == old(
                self,
            )@.current,
            final(self)@.within(
                resources.encoders@.len() as int,
                resources.crtcs@.len() as int,
            ),
    {
        assert(resources.crtcs.len() == resources.crtcs@.len());
        self.crtcs_passed = self.crtcs_passed + 1;
        if let Some(mut group) = self.current.take() {
            let ghost before = group@;
            if let Some(crtc) = crtc {
                if crtc.mode_valid != 0 {
                    group.crtcs.push(crtc);
                }
            }
            proof {
                assert(group@.1 =~= before.1 + valid_crtc(crtc));
            }
            self.current = Some(group);
        }
    }
}

/// The CRTCs from `from` on that can drive `encoder`, where `crtc` says what the card answers
/// for each of them.
pub open spec fn driving_crtcs(
    encoder: drmModeEncoder,
    crtc: spec_fn(int) -> Option<drmModeCrtc>,
    from: int,
    count: int,
) -> Seq<drmModeCrtc>
    decreases count - from,
{
    if from >= count {
        Seq::empty()
    } else {
        (if crate::drm::bit_is_set(encoder.possible_crtcs, from as nat) {
            valid_crtc(crtc(from))
        } else {
            Seq::empty()
        }) + driving_crtcs(encoder, crtc, from + 1, count)
    }
}

/// What the card answers for each CRTC while the encoder at `position` is looked at.
pub open spec fn answers_for(
    crtc: spec_fn(int, int) -> Option<drmModeCrtc>,
    position: int,
) -> spec_fn(int) -> Option<drmModeCrtc> {
    |i: int| crtc(position, i)
}

/// Every encoder that the card has, from `from` on, with the CRTCs that can drive it, where
/// `encoder` and `crtc` say what the card answers: `crtc` is given the position of the encoder
/// for which it is asked and that of the CRTC.
pub open spec fn crtc_groups(
    encoder: spec_fn(int) -> Option<drmModeEncoder>,
    crtc: spec_fn(int, int) -> Option<drmModeCrtc>,
    from: int,
    encoders: int,
    crtcs: int,
) -> Seq<(drmModeEncoder, Seq<drmModeCrtc>)>
    decreases encoders - from,
{
    if from >= encoders {
        Seq::empty()
    } else {
        (match encoder(from) {
            Some(e) => seq![(e, driving_crtcs(e, answers_for(crtc, from), 0, crtcs))],
            None => Seq::empty(),
        }) + crtc_groups(encoder, crtc, from + 1, encoders, crtcs)
    }
}

/// What a search finds if it goes on from `state` until it is done and the card answers as
/// `encoder` and `crtc` say.
pub open spec fn crtc_search_run(
    state: CrtcSearchState,
    resources: drmModeRes,
    encoder: spec_fn(int) -> Option<drmModeEncoder>,
    crtc: spec_fn(int, int) -> Option<drmModeCrtc>,
) -> Seq<(drmModeEncoder, Seq<drmModeCrtc>)>
    decreases
            resources.encoders@.len() - state.encoders_passed,
            resources.crtcs@.len() - state.crtcs_passed,
    when state.within(resources.encoders@.len() as int, resources.crtcs@.len() as int)
    via crtc_search_run_terminates
{
    let settled = state.settled(resources.crtcs@.len() as int);
    match settled.query(resources.encoders@, resources.crtcs@) {
        CrtcQuery::Encoder(_) => crtc_search_run(
            settled.after_encoder(encoder(settled.encoders_passed)),
            resources,
            encoder,
            crtc,
        ),
        CrtcQuery::Crtc(_) => crtc_search_run(
            settled.after_crtc(crtc(settled.encoders_passed - 1, settled.crtcs_passed)),
            resources,
            encoder,
            crtc,
        ),
        CrtcQuery::Done => settled.found,
    }
}

#[via_fn]
proof fn crtc_search_run_terminates(
    state: CrtcSearchState,
    resources: drmModeRes,
    encoder: spec_fn(int) -> Option<drmModeEncoder>,
    crtc: spec_fn(int, int) -> Option<drmModeCrtc>,
) {
    if state.current is Some {
        lemma_next_possible(
            (state.current->0).0,
            state.crtcs_passed,
            resources.crtcs@.len() as int,
        );
    }
}

proof fn lemma_next_possible(encoder: drmModeEncoder, from: int, count: int)
    requires
        from <= count,
    ensures
        from <= next_possible(encoder, from, count) <= count,
    decreases count - from,
{
    if from < count && !crate::drm::bit_is_set(encoder.possible_crtcs, from as nat) {
        lemma_next_possible(encoder, from + 1, count);
    }
}

proof fn lemma_driving_crtcs_skip(
    encoder: drmModeEncoder,
    crtc: spec_fn(int) -> Option<drmModeCrtc>,
    from: int,
    count: int,
)
    requires
        from <= count,
    ensures
        driving_crtcs(encoder, crtc, from, count) == driving_crtcs(
            encoder,
            crtc,
            next_possible(encoder, from, count),
            count,
        ),
    decreases count - from,
{
    if from < count && !crate::drm::bit_is_set(encoder.possible_crtcs, from as nat) {
        lemma_driving_crtcs_skip(encoder, crtc, from + 1, count);
        assert(driving_crtcs(encoder, crtc, from, count) =~= driving_crtcs(
            encoder,
            crtc,
            from + 1,
            count,
        ));
    }
}

/// What a search that has come as far as `state` finds in the end: what it has found, the
/// rest of the current encoder, and the rest of the encoders.
pub open spec fn crtc_search_outcome(
    state: CrtcSearchState,
    resources: drmModeRes,
    encoder: spec_fn(int) -> Option<drmModeEncoder>,
    crtc: spec_fn(int, int) -> Option<drmModeCrtc>,
) -> Seq<(drmModeEncoder, Seq<drmModeCrtc>)> {
    let encoders = resources.encoders@.len() as int;
    let crtcs = resources.crtcs@.len() as int;
    state.found + (match state.current {
        Some(group) => seq![
            (
                group.0,
                group.1 + driving_crtcs(
                    group.0,
                    answers_for(crtc, state.encoders_passed - 1),
                    state.crtcs_passed,
                    crtcs,
                ),
            ),
        ],
        None => Seq::empty(),
    }) + crtc_groups(encoder, crtc, state.encoders_passed, encoders, crtcs)
}

proof fn lemma_settled_outcome(
    state: CrtcSearchState,
    resources: drmModeRes,
    encoder: spec_fn(int) -> Option<drmModeEncoder>,
    crtc: spec_fn(int, int) -> Option<drmModeCrtc>,
)
    requires
        state.within(resources.encoders@.len() as int, resources.crtcs@.len() as int),
    ensures
        crtc_search_outcome(
            state.settled(resources.crtcs@.len() as int),
            resources,
            encoder,
            crtc,
        ) == crtc_search_outcome(state, resources, encoder, crtc),
{
    let crtcs = resources.crtcs@.len() as int;
    if state.current is Some {
        let group = state.current->0;
        let answers = answers_for(crtc, state.encoders_passed - 1);
        lemma_driving_crtcs_skip(group.0, answers, state.crtcs_passed, crtcs);
        lemma_next_possible(group.0, state.crtcs_passed, crtcs);
        let next = next_possible(group.0, state.crtcs_passed, crtcs);
        if next >= crtcs {
            assert(driving_crtcs(group.0, answers, next, crtcs) =~= Seq::empty());
            assert(group.1 + Seq::<drmModeCrtc>::empty() =~= group.1);
            assert(crtc_search_outcome(state.settled(crtcs), resources, encoder, crtc)
                =~= crtc_search_outcome(state, resources, encoder, crtc));
        }
    }
}

proof fn lemma_crtc_search_run(
    state: CrtcSearchState,
    resources: drmModeRes,
    encoder: spec_fn(int) -> Option<drmModeEncoder>,
    crtc: spec_fn(int, int) -> Option<drmModeCrtc>,
)
    requires
        state.within(resources.encoders@.len() as int, resources.crtcs@.len() as int),
    ensures
        crtc_search_run(state, resources, encoder, crtc) == crtc_search_outcome(
            state,
            resources,
            encoder,
            crtc,
        ),
    decreases
            resources.encoders@.len() - state.encoders_passed,
            resources.crtcs@.len() - state.crtcs_passed,
{
    let encoders = resources.encoders@.len() as int;
    let crtcs = resources.crtcs@.len() as int;
    if state.current is Some {
        lemma_next_possible((state.current->0).0, state.crtcs_passed, crtcs);
    }
    lemma_settled_outcome(state, resources, encoder, crtc);
    let settled = state.settled(crtcs);
    match settled.query(resources.encoders@, resources.crtcs@) {
        CrtcQuery::Encoder(_) => {
            let next = settled.after_encoder(encoder(settled.encoders_passed));
            lemma_crtc_search_run(next, resources, encoder, crtc);
            match encoder(settled.encoders_passed) {
                Some(e) => {
                    let kept = driving_crtcs(
                        e,
                        answers_for(crtc, settled.encoders_passed),
                        0,
                        crtcs,
                    );
                    assert(Seq::<drmModeCrtc>::empty() + kept =~= kept);
                },
                None => {},
            }
            assert(crtc_search_outcome(next, resources, encoder, crtc) =~= crtc_search_outcome(
                settled,
                resources,
                encoder,
                crtc,
            ));
        },
        CrtcQuery::Crtc(_) => {
            let group = settled.current->0;
            let answers = answers_for(crtc, settled.encoders_passed - 1);
            let reply = crtc(settled.encoders_passed - 1, settled.crtcs_passed);
            let next = settled.after_crtc(reply);
            lemma_crtc_search_run(next, resources, encoder, crtc);
            lemma_next_is_possible(group.0, state.crtcs_passed, crtcs);
            assert(driving_crtcs(group.0, answers, settled.crtcs_passed, crtcs) == valid_crtc(reply)
                + driving_crtcs(group.0, answers, settled.crtcs_passed + 1, crtcs));
            assert((group.1 + valid_crtc(reply)) + driving_crtcs(
                group.0,
                answers,
                settled.crtcs_passed + 1,
                crtcs,
            ) =~= group.1 + driving_crtcs(group.0, answers, settled.crtcs_passed, crtcs));
            assert(crtc_search_outcome(next, resources, encoder, crtc) =~= crtc_search_outcome(
                settled,
                resources,
                encoder,
                crtc,
            ));
        },
        CrtcQuery::Done => {
            assert(crtc_search_outcome(settled, resources, encoder, crtc) =~= settled.found);
        },
    }
}

proof fn lemma_next_is_possible(encoder: drmModeEncoder, from: int, count: int)
    ensures
        next_possible(encoder, from, count) < count ==> crate::drm::bit_is_set(
            encoder.possible_crtcs,
            next_possible(encoder, from, count) as nat,
        ),
    decreases count - from,
{
    if from < count && !crate::drm::bit_is_set(encoder.possible_crtcs, from as nat) {
        lemma_next_is_possible(encoder, from + 1, count);
    }
}

/// A search for CRTCs finds every encoder that the card has, in the card's order, each with
/// exactly the CRTCs that can drive it, exist and have a valid mode, whatever the card
/// answers.
pub proof fn law_crtc_search_finds_all(
    resources: drmModeRes,
    encoder: spec_fn(int) -> Option<drmModeEncoder>,
    crtc: spec_fn(int, int) -> Option<drmModeCrtc>,
)
    ensures
        crtc_search_run(CrtcSearchState::start(), resources, encoder, crtc) == crtc_groups(
            encoder,
            crtc,
            0,
            resources.encoders@.len() as int,
            resources.crtcs@.len() as int,
        ),
{
    lemma_crtc_search_run(CrtcSearchState::start(), resources, encoder, crtc);
    let found = crtc_groups(
        encoder,
        crtc,
        0,
        resources.encoders@.len() as int,
        resources.crtcs@.len() as int,
    );
    assert(crtc_search_outcome(CrtcSearchState::start(), resources, encoder, crtc) =~= found);
}

/// The CRTC to draw on: the first one for the first encoder.
pub fn chosen_crtc(groups: &Vec<CrtcGroup>) -> (crtc: &drmModeCrtc)
    requires
        groups@.len() > 0,
        groups@[0].crtcs@.len() > 0,
    ensures
        *crtc == groups@[0].crtcs@[0],
{
    &groups[0].crtcs[0]
}

/// A connector is taken exactly if the card has it, something is plugged into it, and it has
/// at least one mode, however many.
pub proof fn law_which_connectors_are_taken(connector: Option<&drmModeConnector>)
    ensures
        connector is None ==> !is_usable(connector),
        connector matches Some(c) ==> {
            &&& is_usable(connector) <==> c.connection == drmModeConnection::DRM_MODE_CONNECTED
                && c.modes@.len() != 0
            &&& c.connection == drmModeConnection::DRM_MODE_DISCONNECTED ==> !is_usable(connector)
            &&& c.connection == drmModeConnection::DRM_MODE_UNKNOWNCONNECTION ==> !is_usable(
                connector,
            )
        },
{
}

/// Two connectors with the same connection are both taken or both passed over, unless one has
/// modes and the other has none. More modes never make a connector unusable.
pub proof fn law_only_connection_and_modes_matter(a: drmModeConnector, b: drmModeConnector)
    requires
        a.connection == b.connection,
    ensures
        is_usable(Some(&a)) && a.modes@.len() <= b.modes@.len() ==> is_usable(Some(&b)),
        (a.modes@.len() == 0 <==> b.modes@.len() == 0) ==> is_usable(Some(&a)) == is_usable(
            Some(&b),
        ),
{
}

/// An encoder is the connector's exactly if the card has it and its id is the one that the
/// connector names. Nothing else about either matters.
pub proof fn law_which_encoder_is_taken(
    encoder: Option<&drmModeEncoder>,
    connector: drmModeConnector,
)
    ensures
        encoder is None ==> !is_attached(encoder, connector),
        encoder matches Some(e) ==> (is_attached(encoder, connector) <==> e.encoder_id
            == connector.encoder_id),
{
}

/// The ids are asked for one by one in the order of the list, up to the first object that is
/// taken; where none is left, the search is over.
pub proof fn law_ids_are_asked_for_in_order(ids: Seq<u32>, passed: int)
    requires
        0 <= passed < ids.len(),
    ensures
        ask_at(ids, passed) == IdSearchStep::Ask(ids[passed]),
        forall|p: int| p >= ids.len() ==> #[trigger] ask_at(ids, p) == IdSearchStep::Exhausted,
        step_after(ids, passed, true) == IdSearchStep::Found,
        passed_after(passed, true) == passed,
        passed_after(passed, false) == passed + 1,
        passed + 1 < ids.len() ==> step_after(ids, passed, false) == IdSearchStep::Ask(
            ids[passed + 1],
        ),
        passed + 1 == ids.len() ==> step_after(ids, passed, false) == IdSearchStep::Exhausted,
{
}

/// The CRTC that the card returned joins the current encoder's, behind them, exactly if its
/// mode is valid. The next CRTC is looked at then, and nothing else changes.
pub proof fn law_which_crtcs_are_kept(state: CrtcSearchState, crtc: Option<drmModeCrtc>)
    requires
        state.current is Some,
    ensures
        ({
            let before = state.current->0;
            let after = state.after_crtc(crtc);
            &&& after.current is Some
            &&& (after.current->0).0 == before.0
            &&& crtc matches Some(c) ==> (c.mode_valid != 0 ==> (after.current->0).1
                == before.1.push(c))
            &&& crtc matches Some(c) ==> (c.mode_valid == 0 ==> (after.current->0).1 == before.1)
            &&& crtc is None ==> (after.current->0).1 == before.1
            &&& after.crtcs_passed == state.crtcs_passed + 1
            &&& after.encoders_passed == state.encoders_passed
            &&& after.found == state.found
        }),
{
    if let Some(c) = crtc {
        let before = state.current->0;
        assert(before.1 + seq![c] =~= before.1.push(c));
        assert(before.1 + Seq::<drmModeCrtc>::empty() =~= before.1);
    }
}

/// Two CRTCs whose modes are both valid or both invalid are both kept or both dropped: position,
/// size, framebuffer and mode do not matter.
pub proof fn law_only_the_valid_mode_matters(a: drmModeCrtc, b: drmModeCrtc)
    requires
        a.mode_valid == 0 <==> b.mode_valid == 0,
    ensures
        valid_crtc(Some(a)).len() == valid_crtc(Some(b)).len(),
        a.mode_valid != 0 ==> valid_crtc(Some(a)) == seq![a],
        a.mode_valid == 0 ==> valid_crtc(Some(a)).len() == 0,
{
}

/// An encoder that the card has becomes the current one, without CRTCs, and its CRTCs are
/// looked at from the first on. One that the card does not have is passed over.
pub proof fn law_an_encoder_starts_a_group(state: CrtcSearchState, encoder: Option<drmModeEncoder>)
    ensures
        ({
            let after = state.after_encoder(encoder);
            &&& after.encoders_passed == state.encoders_passed + 1
            &&& after.found == state.found
            &&& encoder matches Some(e) ==> {
                &&& after.current is Some
                &&& (after.current->0).0 == e
                &&& (after.current->0).1.len() == 0
                &&& after.crtcs_passed == 0
            }
            &&& encoder is None ==> after.current == state.current && after.crtcs_passed
                == state.crtcs_passed
        }),
{
}

/// The CRTC at `i` can drive the encoder: its bit in the encoder's mask is set.
pub open spec fn can_drive(encoder: drmModeEncoder, i: int) -> bool {
    (encoder.possible_crtcs >> (i as u32)) & 1 == 1
}

proof fn lemma_can_drive(encoder: drmModeEncoder, i: int)
    requires
        0 <= i < 32,
    ensures
        crate::drm::bit_is_set(encoder.possible_crtcs, i as nat) == can_drive(encoder, i),
{
    crate::drm::law_bits_of_a_mask(encoder.possible_crtcs, i as u32);
}

/// The next CRTC to look at is the first one, from those already looked at on, whose bit is set
/// in the encoder's mask.
pub proof fn law_next_possible_is_the_first(encoder: drmModeEncoder, from: int, count: int)
    requires
        0 <= from <= count <= 32,
    ensures
        from <= next_possible(encoder, from, count) <= count,
        next_possible(encoder, from, count) < count ==> (encoder.possible_crtcs >> (next_possible(
            encoder,
            from,
            count,
        ) as u32)) & 1 == 1,
        forall|i: int|
            from <= i < next_possible(encoder, from, count) ==> !#[trigger] can_drive(encoder, i),
    decreases count - from,
{
    if from < count {
        lemma_can_drive(encoder, from);
        if !can_drive(encoder, from) {
            law_next_possible_is_the_first(encoder, from + 1, count);
        }
    }
}

/// Looking at an encoder's CRTCs goes on as long as one is left whose bit is set; when none is,
/// the encoder joins the others, behind them, with the CRTCs that it has.
pub proof fn law_a_group_ends_after_its_last_crtc(state: CrtcSearchState, crtcs: int)
    requires
        state.current is Some,
        0 <= state.crtcs_passed <= crtcs <= 32,
    ensures
        ({
            let after = state.settled(crtcs);
            let encoder = (state.current->0).0;
            let left = exists|i: int|
                state.crtcs_passed <= i < crtcs && #[trigger] can_drive(encoder, i);
            &&& after.encoders_passed == state.encoders_passed
            &&& left ==> {
                &&& after.current == state.current
                &&& after.found == state.found
                &&& state.crtcs_passed <= after.crtcs_passed < crtcs
                &&& can_drive(encoder, after.crtcs_passed)
                &&& forall|i: int|
                    state.crtcs_passed <= i < after.crtcs_passed ==> !#[trigger] can_drive(
                        encoder,
                        i,
                    )
            }
            &&& !left ==> {
                &&& after.current is None
                &&& after.found == state.found.push(state.current->0)
            }
        }),
{
    let encoder = (state.current->0).0;
    law_next_possible_is_the_first(encoder, state.crtcs_passed, crtcs);
    let next = next_possible(encoder, state.crtcs_passed, crtcs);
    if next < crtcs {
        assert(can_drive(encoder, next));
    }
}

/// A search between two encoders asks for the next encoder of the list, one within an encoder
/// for the CRTC that it has come to, and one that has passed everything for nothing.
pub proof fn law_what_the_crtc_search_asks_for(
    state: CrtcSearchState,
    encoder_ids: Seq<u32>,
    crtc_ids: Seq<u32>,
)
    requires
        state.within(encoder_ids.len() as int, crtc_ids.len() as int),
    ensures
        ({
            let settled = state.settled(crtc_ids.len() as int);
            let query = settled.query(encoder_ids, crtc_ids);
            &&& settled.current is Some ==> query == CrtcQuery::Crtc(
                crtc_ids[settled.crtcs_passed],
            )
            &&& settled.current is None && state.encoders_passed < encoder_ids.len() ==> query
                == CrtcQuery::Encoder(encoder_ids[state.encoders_passed])
            &&& settled.current is None && state.encoders_passed == encoder_ids.len() ==> query
                == CrtcQuery::Done
        }),
{
}

/// How many of the encoders at the positions from `from` up to `to` the card has.
pub open spec fn existing(
    encoder: spec_fn(int) -> Option<drmModeEncoder>,
    from: int,
    to: int,
) -> nat
    decreases to - from,
{
    if from >= to {
        0
    } else {
        (if encoder(from) is Some {
            1nat
        } else {
            0nat
        }) + existing(encoder, from + 1, to)
    }
}

/// `crtc` is what the card returned for a CRTC that can drive `encoder`, from `from` on, and
/// its mode is valid.
pub open spec fn belongs(
    encoder: drmModeEncoder,
    answers: spec_fn(int) -> Option<drmModeCrtc>,
    from: int,
    count: int,
    crtc: drmModeCrtc,
) -> bool {
    exists|i: int|
        from <= i < count && (encoder.possible_crtcs >> (i as u32)) & 1 == 1
            && #[trigger] answers(i) == Some(crtc) && crtc.mode_valid != 0
}

proof fn lemma_driving_crtcs_members(
    encoder: drmModeEncoder,
    answers: spec_fn(int) -> Option<drmModeCrtc>,
    from: int,
    count: int,
    crtc: drmModeCrtc,
)
    requires
        0 <= from,
        count <= 32,
    ensures
        driving_crtcs(encoder, answers, from, count).contains(crtc) <==> belongs(
            encoder,
            answers,
            from,
            count,
            crtc,
        ),
    decreases count - from,
{
    if from < count {
        lemma_can_drive(encoder, from);
        lemma_driving_crtcs_members(encoder, answers, from + 1, count, crtc);
        let rest = driving_crtcs(encoder, answers, from + 1, count);
        let all = driving_crtcs(encoder, answers, from, count);
        let here = if can_drive(encoder, from) {
            valid_crtc(answers(from))
        } else {
            Seq::empty()
        };
        assert(all == here + rest);
        let is_here = can_drive(encoder, from) && answers(from) == Some(crtc) && crtc.mode_valid
            != 0;
        assert(here.contains(crtc) <==> is_here) by {
            if is_here {
                assert(here[0] == crtc);
            }
        }
        assert(all.contains(crtc) <==> here.contains(crtc) || rest.contains(crtc)) by {
            if here.contains(crtc) {
                let k = choose|k: int| 0 <= k < here.len() && here[k] == crtc;
                assert(all[k] == crtc);
            }
            if rest.contains(crtc) {
                let k = choose|k: int| 0 <= k < rest.len() && rest[k] == crtc;
                assert(all[here.len() + k] == crtc);
            }
            if all.contains(crtc) {
                let k = choose|k: int| 0 <= k < all.len() && all[k] == crtc;
                if k < here.len() {
                    assert(here[k] == crtc);
                } else {
                    assert(rest[k - here.len()] == crtc);
                }
            }
        }
        if belongs(encoder, answers, from + 1, count, crtc) {
            let i = choose|i: int|
                from + 1 <= i < count && (encoder.possible_crtcs >> (i as u32)) & 1 == 1
                    && #[trigger] answers(i) == Some(crtc) && crtc.mode_valid != 0;
            assert(answers(i) == Some(crtc));
        }
    }
}

proof fn lemma_group_at(
    encoder: spec_fn(int) -> Option<drmModeEncoder>,
    crtc: spec_fn(int, int) -> Option<drmModeCrtc>,
    from: int,
    position: int,
    encoders: int,
    crtcs: int,
)
    requires
        0 <= from <= position < encoders,
        encoder(position) is Some,
    ensures
        ({
            let groups = crtc_groups(encoder, crtc, from, encoders, crtcs);
            let at = existing(encoder, from, position) as int;
            &&& at < groups.len()
            &&& groups[at] == (
                encoder(position)->0,
                driving_crtcs(encoder(position)->0, answers_for(crtc, position), 0, crtcs),
            )
        }),
    decreases position - from,
{
    if from < position {
        lemma_group_at(encoder, crtc, from + 1, position, encoders, crtcs);
    }
}

proof fn lemma_group_count(
    encoder: spec_fn(int) -> Option<drmModeEncoder>,
    crtc: spec_fn(int, int) -> Option<drmModeCrtc>,
    from: int,
    encoders: int,
    crtcs: int,
)
    ensures
        crtc_groups(encoder, crtc, from, encoders, crtcs).len() == existing(
            encoder,
            from,
            encoders,
        ),
    decreases encoders - from,
{
    if from < encoders {
        lemma_group_count(encoder, crtc, from + 1, encoders, crtcs);
    }
}

/// A whole search finds one group for each encoder that the card has, in the card's order. A
/// CRTC is in an encoder's group exactly if its bit is set in the encoder's mask, the card
/// returned it, and its mode is valid.
pub proof fn law_groups_hold_exactly_the_driving_crtcs(
    resources: drmModeRes,
    encoder: spec_fn(int) -> Option<drmModeEncoder>,
    crtc: spec_fn(int, int) -> Option<drmModeCrtc>,
    position: int,
    candidate: drmModeCrtc,
)
    requires
        resources.crtcs@.len() <= 32,
        0 <= position < resources.encoders@.len(),
        encoder(position) is Some,
    ensures
        ({
            let found = crtc_search_run(CrtcSearchState::start(), resources, encoder, crtc);
            let at = existing(encoder, 0, position) as int;
            let e = encoder(position)->0;
            &&& found.len() == existing(encoder, 0, resources.encoders@.len() as int)
            &&& at < found.len()
            &&& found[at].0 == e
            &&& found[at].1.contains(candidate) <==> (exists|i: int|
                0 <= i < resources.crtcs@.len() && (e.possible_crtcs >> (i as u32)) & 1 == 1
                    && #[trigger] crtc(position, i) == Some(candidate) && candidate.mode_valid
                    != 0)
        }),
{
    let encoders = resources.encoders@.len() as int;
    let crtcs = resources.crtcs@.len() as int;
    let e = encoder(position)->0;
    law_crtc_search_finds_all(resources, encoder, crtc);
    lemma_group_at(encoder, crtc, 0, position, encoders, crtcs);
    lemma_group_count(encoder, crtc, 0, encoders, crtcs);
    let answers = answers_for(crtc, position);
    lemma_driving_crtcs_members(e, answers, 0, crtcs, candidate);
    if belongs(e, answers, 0, crtcs, candidate) {
        let i = choose|i: int|
            0 <= i < crtcs && (e.possible_crtcs >> (i as u32)) & 1 == 1 && #[trigger] answers(i)
                == Some(candidate) && candidate.mode_valid != 0;
        assert(crtc(position, i) == Some(candidate));
    }
    if exists|i: int|
        0 <= i < crtcs && (e.possible_crtcs >> (i as u32)) & 1 == 1 && #[trigger] crtc(position, i)
            == Some(candidate) && candidate.mode_valid != 0 {
        let i = choose|i: int|
            0 <= i < crtcs && (e.possible_crtcs >> (i as u32)) & 1 == 1
                && #[trigger] crtc(position, i) == Some(candidate) && candidate.mode_valid != 0;
        assert(answers(i) == Some(candidate));
    }
}

/// A search starts without having looked at anything, and what it has found is what it holds:
/// the encoders in order, each with its CRTCs in order.
pub proof fn law_what_a_search_holds(search: CrtcSearch)
    ensures
        CrtcSearchState::start().encoders_passed == 0,
        CrtcSearchState::start().current is None,
        CrtcSearchState::start().found.len() == 0,
        search@.encoders_passed == search.encoders_passed,
        search@.crtcs_passed == search.crtcs_passed,
        search@.found.len() == search.found@.len(),
        forall|i: int|
            0 <= i < search.found@.len() ==> {
                &&& (#[trigger] search@.found[i]).0 == search.found@[i].encoder
                &&& search@.found[i].1 == search.found@[i].crtcs@
            },
        search.current is None <==> search@.current is None,
        search.current matches Some(group) ==> search@.current == Some(
            (group.encoder, group.crtcs@),
        ),
{
}

} // verus!
