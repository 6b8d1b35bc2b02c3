//! What the kernel's mode setting interface reports about a graphics card.

use vstd::prelude::*;

use crate::text::bytes_until_nul;

verus! {

/// The objects of a card, by id, and the sizes it supports.
#[derive(Debug)]
pub struct drmModeRes {
    pub fbs: Vec<u32>,
    pub crtcs: Vec<u32>,
    pub connectors: Vec<u32>,
    pub encoders: Vec<u32>,
    pub min_width: u32,
    pub max_width: u32,
    pub min_height: u32,
    pub max_height: u32,
}

impl drmModeRes {
    /// The ids of the card's connectors.
    pub fn connector_ids(&self) -> (ids: &[u32])
        ensures
            ids@ == self.connectors@,
    {
        self.connectors.as_slice()
    }

    /// The ids of the card's encoders.
    pub fn encoder_ids(&self) -> (ids: &[u32])
        ensures
            ids@ == self.encoders@,
    {
        self.encoders.as_slice()
    }

    /// The ids of the card's CRTCs.
    pub fn crtc_ids(&self) -> (ids: &[u32])
        ensures
            ids@ == self.crtcs@,
    {
        self.crtcs.as_slice()
    }
}

/// Turns the pixels of a CRTC into a signal for a connector.
#[derive(Debug, Copy, Clone, PartialEq, Eq, Structural)]
pub struct drmModeEncoder {
    pub encoder_id: u32,
    pub encoder_type: u32,
    pub crtc_id: u32,
    pub possible_crtcs: u32,
    pub possible_clones: u32,
}

/// Bit `index` of `mask`, counted from the lowest, is set.
pub open spec fn bit_is_set(mask: u32, index: nat) -> bool {
    (mask as nat / vstd::arithmetic::power2::pow2(index)) % 2 == 1
}

impl drmModeEncoder {
    /// Whether the encoder can be driven by the CRTC at `crtc_index` in the card's list.
    pub fn has_crtc(&self, crtc_index: usize) -> (r: bool)
        requires
            crtc_index < 32,
        ensures
            r == bit_is_set(self.possible_crtcs, crtc_index as nat),
            r == ((self.possible_crtcs >> crtc_index) & 1 == 1),
    {
        let mask: u32 = self.possible_crtcs;
        let shifted: u32 = mask >> crtc_index;
        proof {
            vstd::arithmetic::power2::lemma_pow2_pos(crtc_index as nat);
            vstd::arithmetic::power2::lemma2_to64();
            let index = crtc_index as u32;
            assert(mask >> crtc_index == mask >> index);
            vstd::bits::lemma_u32_shr_is_div(mask, index);
            assert(shifted & 1 == shifted % 2) by (bit_vector);
        }
        (shifted & 1) == 1
    }
}

/// Whether something is plugged into a connector.
#[derive(Debug, Copy, Clone, PartialEq, Eq, PartialOrd, Ord, Structural)]
pub enum drmModeConnection {
    DRM_MODE_CONNECTED,
    DRM_MODE_DISCONNECTED,
    DRM_MODE_UNKNOWNCONNECTION,
}

/// How the colours of a pixel are arranged.
#[derive(Debug, Copy, Clone, PartialEq, Eq, PartialOrd, Ord, Structural)]
pub enum drmModeSubPixel {
    DRM_MODE_SUBPIXEL_UNKNOWN,
    DRM_MODE_SUBPIXEL_HORIZONTAL_RGB,
    DRM_MODE_SUBPIXEL_HORIZONTAL_BGR,
    DRM_MODE_SUBPIXEL_VERTICAL_RGB,
    DRM_MODE_SUBPIXEL_VERTICAL_BGR,
    DRM_MODE_SUBPIXEL_NONE,
}

/// The length of a mode's name, with its padding.
pub const DRM_DISPLAY_MODE_LEN: usize = 32;

/// A display mode: resolution, timings and name.
#[derive(Debug, Copy, Clone)]
pub struct drmModeModeInfo {
    pub clock: u32,
    pub hdisplay: u16,
    pub hsync_start: u16,
    pub hsync_end: u16,
    pub htotal: u16,
    pub hskew: u16,
    pub vdisplay: u16,
    pub vsync_start: u16,
    pub vsync_end: u16,
    pub vtotal: u16,
    pub vscan: u16,
    pub vrefresh: u32,
    pub flags: u32,
    pub type_: u32,
    pub name: [u8; DRM_DISPLAY_MODE_LEN],
}

impl drmModeModeInfo {
    /// The name of the mode, which ends at the first NUL byte.
    pub fn name(&self) -> (name: &[u8])
        requires
            self.name@.contains(0u8),
        ensures
            name@.len() < DRM_DISPLAY_MODE_LEN,
            name@ == self.name@.take(name@.len() as int),
            !name@.contains(0u8),
            self.name@[name@.len() as int] == 0,
    {
        match bytes_until_nul(self.name.as_slice()) {
            Some(name) => name,
            None => self.name.as_slice(),
        }
    }
}

/// A socket for a display.
#[derive(Debug)]
pub struct drmModeConnector {
    pub connector_id: u32,
    /// The encoder that the connector is attached to.
    pub encoder_id: u32,
    pub connector_type: u32,
    pub connector_type_id: u32,
    pub connection: drmModeConnection,
    /// The size of the display in millimetres.
    pub mmWidth: u32,
    pub mmHeight: u32,
    pub subpixel: drmModeSubPixel,
    pub modes: Vec<drmModeModeInfo>,
    /// The ids of the connector's properties.
    pub props: Vec<u32>,
    /// The values of the properties.
    pub prop_values: Vec<u64>,
    /// The ids of the encoders that the connector can be attached to.
    pub encoders: Vec<u32>,
}

impl drmModeConnector {
    /// The modes of the display.
    pub fn modes(&self) -> (modes: &[drmModeModeInfo])
        ensures
            modes@ == self.modes@,
    {
        self.modes.as_slice()
    }
}

/// Scans out a framebuffer in a mode.
#[derive(Debug, Copy, Clone)]
pub struct drmModeCrtc {
    pub crtc_id: u32,
    /// The framebuffer that is shown. None is shown where it is 0.
    pub buffer_id: u32,
    /// The position on the framebuffer.
    pub x: u32,
    pub y: u32,
    pub width: u32,
    pub height: u32,
    pub mode_valid: i32,
    pub mode: drmModeModeInfo,
    /// The number of gamma stops.
    pub gamma_size: i32,
}

/// A handle is the only one among `handles` to its object.
pub open spec fn is_last_handle(handles: nat) -> bool {
    handles == 1
}

/// Whether a handle to an object that libdrm allocated must free it when it is dropped, given
/// the number of handles to it, itself included.
pub fn frees_on_drop(handles: usize) -> (r: bool)
    ensures
        r == is_last_handle(handles as nat),
        r <==> handles == 1,
{
    handles == 1
}

/// How often an object with `handles` handles is freed once they have all been dropped.
pub open spec fn frees(handles: nat) -> nat
    decreases handles,
{
    if handles == 0 {
        0
    } else {
        (if is_last_handle(handles) {
            1nat
        } else {
            0nat
        }) + frees((handles - 1) as nat)
    }
}

/// However many handles an object has had, dropping them all frees it exactly once.
pub proof fn law_freed_exactly_once(handles: nat)
    requires
        handles > 0,
    ensures
        frees(handles) == 1,
    decreases handles,
{
    if handles > 1 {
        law_freed_exactly_once((handles - 1) as nat);
    } else {
        assert(frees(0) == 0);
    }
}

/// A bit is set exactly if it is the lowest one once the mask is shifted down by its position.
pub proof fn law_bits_of_a_mask(mask: u32, index: u32)
    requires
        index < 32,
    ensures
        bit_is_set(mask, index as nat) <==> (mask >> index) & 1 == 1,
{
    vstd::arithmetic::power2::lemma_pow2_pos(index as nat);
    vstd::arithmetic::power2::lemma2_to64();
    vstd::bits::lemma_u32_shr_is_div(mask, index);
    let shifted = mask >> index;
    assert(shifted & 1 == shifted % 2) by (bit_vector);
}

/// An object is freed with its last handle and with no other.
pub proof fn law_freed_with_the_last_handle(handles: nat)
    ensures
        is_last_handle(handles) <==> handles == 1,
{
}

} // verus!
