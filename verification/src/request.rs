//! The payload a test run sends to the controller.

use vstd::prelude::*;

verus! {

/// Snapshot of the payload the console will send, rebuilt whole on every
/// change rather than mutated in place. `int_data` is a placeholder the
/// interface never sets; the wire format carries a second placeholder,
/// `floatData`, always at its default, which serialization supplies.
#[derive(Clone, PartialEq)]
pub struct TestData {
    pub device: String,
    pub check: bool,
    pub int_data: i32,
}

impl Default for TestData {
    /// The startup payload: no device string, toggle off, placeholder zero.
    fn default() -> (r: Self)
        ensures
            r.device@ == Seq::<char>::empty(),
            r.check == false,
            r.int_data == 0,
    {
        TestData { device: String::new(), check: false, int_data: 0 }
    }
}

/// The JSON object posted to the controller, character for character: the
/// fixed frame around the device label, the option flag, and the two
/// placeholder fields at their defaults.
pub open spec fn spec_request_body(device: Seq<char>, check: bool) -> Seq<char> {
    "{\"device\":\""@ + device + "\",\"check\":"@ + (if check {
        "true"@
    } else {
        "false"@
    }) + ",\"intData\":0,\"floatData\":0.0}"@
}

impl TestData {
    /// Serializes this snapshot as the JSON body of a test request.
    pub fn to_json(&self) -> (r: String)
        requires
            self.int_data == 0,
        ensures
            r@ == spec_request_body(self.device@, self.check),
    {
        let mut s = String::from_str("{\"device\":\"");
        s.append(self.device.as_str());
        s.append("\",\"check\":");
        s.append(if self.check { "true" } else { "false" });
        s.append(",\"intData\":0,\"floatData\":0.0}");
        proof {
            assert(s@ =~= spec_request_body(self.device@, self.check));
        }
        s
    }
}

} // verus!
