//! The console's state machine.
//!
//! All interface behaviour is decided here: what a click on the picker, the
//! option toggle or the submit button does to the state, and what each part
//! of the page shows. The surrounding interface performs the rendering and
//! the network call and hands the outcome back to `complete_request`.

use vstd::prelude::*;

use crate::device::Device;
use crate::reply::decode_outcome;
use crate::reply::spec_reply_status;
use crate::request::spec_request_body;
use crate::request::TestData;
use crate::status::ServerResponse;

verus! {

/// The whole state of the diagnostic console: picker visibility, the chosen
/// device, the option toggle, the pending payload snapshot and the last
/// decoded status.
#[derive(Clone)]
pub struct ConsoleState {
    pub dropdown_visible: bool,
    pub chosen: Option<Device>,
    pub use_string_pot: bool,
    pub pending: TestData,
    pub status: ServerResponse,
}

impl ConsoleState {
    /// The state is consistent: the pending payload mirrors the chosen
    /// device's label and the toggle, and the placeholder is untouched.
    pub open spec fn wf(self) -> bool {
        &&& self.pending.check == self.use_string_pot
        &&& self.pending.int_data == 0
        &&& (match self.chosen {
            Some(d) => self.pending.device@ == d.spec_label(),
            None => self.pending.device@ == Seq::<char>::empty(),
        })
    }

    /// The startup state: picker closed, nothing chosen, toggle off, payload
    /// at its defaults, status `Idle`.
    pub fn new() -> (r: ConsoleState)
        ensures
            r.wf(),
            r.dropdown_visible == false,
            r.chosen is None,
            r.use_string_pot == false,
            r.pending.device@ == Seq::<char>::empty(),
            r.pending.check == false,
            r.pending.int_data == 0,
            r.status == ServerResponse::Idle,
    {
        ConsoleState {
            dropdown_visible: false,
            chosen: None,
            use_string_pot: false,
            pending: TestData::default(),
            status: ServerResponse::Idle,
        }
    }

    /// Show or hide the device picker; nothing else moves.
    pub fn toggle_dropdown(&mut self)
        requires
            old(self).wf(),
        ensures
            final(self).wf(),
            final(self).dropdown_visible == !old(self).dropdown_visible,
            final(self).chosen == old(self).chosen,
            final(self).use_string_pot == old(self).use_string_pot,
            final(self).pending == old(self).pending,
            final(self).status == old(self).status,
    {
        self.dropdown_visible = !self.dropdown_visible;
    }

    /// Select a device: record it, collapse the picker, and rebuild the
    /// pending payload whole with the new label, the other fields untouched.
    pub fn select_device(&mut self, device: Device)
        requires
            old(self).wf(),
        ensures
            final(self).wf(),
            final(self).chosen == Some(device),
            final(self).dropdown_visible == false,
            final(self).pending.device@ == device.spec_label(),
            final(self).pending.check == old(self).pending.check,
            final(self).pending.int_data == old(self).pending.int_data,
            final(self).use_string_pot == old(self).use_string_pot,
            final(self).status == old(self).status,
    {
        let label = String::from_str(device.label());
        self.chosen = Some(device);
        self.dropdown_visible = false;
        self.pending = TestData {
            device: label,
            check: self.pending.check,
            int_data: self.pending.int_data,
        };
    }

    /// Set the option toggle: the flag and the payload's `check` move
    /// together; the chosen device and its label in the payload stay as
    /// they are.
    pub fn set_string_pot(&mut self, checked: bool)
        requires
            old(self).wf(),
        ensures
            final(self).wf(),
            final(self).use_string_pot == checked,
            final(self).pending.check == checked,
            final(self).pending.device@ == old(self).pending.device@,
            final(self).pending.int_data == old(self).pending.int_data,
            final(self).chosen == old(self).chosen,
            final(self).dropdown_visible == old(self).dropdown_visible,
            final(self).status == old(self).status,
    {
        let device = self.pending.device.clone();
        self.use_string_pot = checked;
        self.pending = TestData { device, check: checked, int_data: self.pending.int_data };
    }

    /// The option toggle is rendered only while the Brake Signal Transmitter
    /// is the chosen device.
    pub fn shows_option_toggle(&self) -> (r: bool)
        ensures
            r == (self.chosen == Some(Device::BST)),
    {
        match self.chosen {
            Some(Device::BST) => true,
            _ => false,
        }
    }

    /// The label shown beside "Chosen Device": the device's label, or "None"
    /// before any selection.
    pub fn chosen_label(&self) -> (r: String)
        ensures
            r@ == (match self.chosen {
                Some(d) => d.spec_label(),
                None => "None"@,
            }),
    {
        match self.chosen {
            Some(d) => String::from_str(d.label()),
            None => String::from_str("None"),
        }
    }

    /// The picker button's caption, by whether the list is open.
    pub fn dropdown_button_label(&self) -> (r: &'static str)
        ensures
            r@ == (if self.dropdown_visible {
                "Hide Devices"@
            } else {
                "Show Devices"@
            }),
    {
        if self.dropdown_visible {
            "Hide Devices"
        } else {
            "Show Devices"
        }
    }

    /// The JSON body a click on "Start Test" sends: the pending snapshot,
    /// serialized.
    pub fn request_body(&self) -> (r: String)
        requires
            self.wf(),
        ensures
            r@ == spec_request_body(self.pending.device@, self.pending.check),
    {
        self.pending.to_json()
    }

    /// Executable form of `wf`, for unverified callers that must check it
    /// before relying on this state.
    pub fn is_consistent(&self) -> (r: bool)
        ensures
            r == self.wf(),
    {
        let flags_ok = self.pending.check == self.use_string_pot && self.pending.int_data == 0;
        let device_ok = match self.chosen {
            Some(d) => {
                let lbl = String::from_str(d.label());
                self.pending.device == lbl
            },
            None => {
                proof {
                    if self.pending.device@.len() == 0 {
                        assert(self.pending.device@ =~= Seq::<char>::empty());
                    }
                }
                self.pending.device.as_str().is_empty()
            },
        };
        flags_ok && device_ok
    }

    /// Record the outcome of a submit. `Some` carries the reply body, which
    /// decodes by the wire contract; `None` is a transport failure, shown as
    /// `Error`. Only the displayed status moves.
    pub fn complete_request(&mut self, reply: Option<&[u8]>)
        requires
            old(self).wf(),
        ensures
            final(self).wf(),
            final(self).status == (match reply {
                Some(body) => spec_reply_status(body@),
                None => ServerResponse::Error,
            }),
            final(self).chosen == old(self).chosen,
            final(self).dropdown_visible == old(self).dropdown_visible,
            final(self).use_string_pot == old(self).use_string_pot,
            final(self).pending == old(self).pending,
    {
        let status = decode_outcome(reply);
        self.status = status;
    }
}

} // verus!
