use vstd::prelude::*;

verus! {

/// Size in bytes of the inline, NUL-terminated label field of the driver's
/// configuration structure.
pub const CARD_LABEL_LEN: usize = 32;

/// The label the driver gives a device when the caller names none:
/// the ASCII bytes of "v4l2loopback".
pub open spec fn default_label() -> Seq<u8> {
    seq![118u8, 52, 108, 50, 108, 111, 111, 112, 98, 97, 99, 107]
}

/// The label field holding `name`, padded with NUL bytes to its full size.
pub open spec fn label_field(name: Seq<u8>) -> Seq<u8> {
    Seq::new(CARD_LABEL_LEN as nat, |i: int| if i < name.len() { name[i] } else { 0u8 })
}

/// One loopback device pair as the driver's control requests describe it.
#[derive(Clone, Copy, Debug, PartialEq, Eq)]
pub struct V4l2LoopbackCtl {
    pub output_nr: i32,
    pub capture_nr: i32,
    pub card_label: [u8; 32],
    pub min_width: u32,
    pub max_width: u32,
    pub min_height: u32,
    pub max_height: u32,
    pub max_buffers: i32,
    pub max_openers: i32,
    pub debug: i32,
    pub announce_all_caps: i32,
}

impl V4l2LoopbackCtl {
    /// Every numeric field is zero.
    pub open spec fn numbers_zero(self) -> bool {
        &&& self.output_nr == 0
        &&& self.capture_nr == 0
        &&& self.min_width == 0
        &&& self.max_width == 0
        &&& self.min_height == 0
        &&& self.max_height == 0
        &&& self.max_buffers == 0
        &&& self.max_openers == 0
        &&& self.debug == 0
        &&& self.announce_all_caps == 0
    }

    /// The descriptor as freshly built: numbers zero, the default label.
    pub open spec fn is_blank(self) -> bool {
        &&& self.numbers_zero()
        &&& self.card_label@ == label_field(default_label())
    }

    /// The descriptor sent to the driver to name output device `device_id`:
    /// blank but for `output_nr`.
    pub open spec fn is_request_for(self, device_id: i32) -> bool {
        &&& self.output_nr == device_id
        &&& self.capture_nr == 0
        &&& self.min_width == 0
        &&& self.max_width == 0
        &&& self.min_height == 0
        &&& self.max_height == 0
        &&& self.max_buffers == 0
        &&& self.max_openers == 0
        &&& self.debug == 0
        &&& self.announce_all_caps == 0
        &&& self.card_label@ == label_field(default_label())
    }

    /// A descriptor that asks for output device `device_id` (a negative
    /// number asks the driver to pick one).
    pub fn for_device(device_id: i32) -> (r: Self)
        ensures
            r.is_request_for(device_id),
    {
        let mut r = Self::default();
        r.output_nr = device_id;
        r
    }
}

impl Default for V4l2LoopbackCtl {
    fn default() -> (r: Self)
        ensures
            r.is_blank(),
            r.card_label@.len() == CARD_LABEL_LEN,
            r.card_label@[0] != 0,
            r.card_label@[CARD_LABEL_LEN - 1] == 0,
    {
        // "v4l2loopback", then NUL bytes.
        let mut label: [u8; 32] = [0u8; 32];
        label[0] = 118;
        label[1] = 52;
        label[2] = 108;
        label[3] = 50;
        label[4] = 108;
        label[5] = 111;
        label[6] = 111;
        label[7] = 112;
        label[8] = 98;
        label[9] = 97;
        label[10] = 99;
        label[11] = 107;
        assert(label@ =~= label_field(default_label()));
        V4l2LoopbackCtl {
            output_nr: 0,
            capture_nr: 0,
            card_label: label,
            min_width: 0,
            max_width: 0,
            min_height: 0,
            max_height: 0,
            max_buffers: 0,
            max_openers: 0,
            debug: 0,
            announce_all_caps: 0,
        }
    }
}

} // verus!
