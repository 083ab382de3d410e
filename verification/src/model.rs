//! Values carried by externally triggered operations: the submitted capture
//! form, the capture-stage status reported back to callers, and the text
//! notification pushed to the attached observer.

use vstd::prelude::*;
use crate::com::ServerStatus;
use crate::parse::{NumberParseError, is_i32_literal, parse_i32, spec_int_of};

verus! {

/// A submitted page form: either a capture plan or an empty form (the plain
/// "continue" submission that carries no fields).
pub enum PageForm {
    Auftrag(Auftrag),
    Empty,
}

/// The capture form as submitted: three per-round image counts, still as
/// text, and the remote device's base address.
#[derive(Clone, Debug)]
pub struct Auftrag {
    pub input_runde1: String,
    pub input_runde2: String,
    pub input_runde3: String,
    pub input_hostname: String,
}

impl Auftrag {
    pub fn new(
        input_runde1: String,
        input_runde2: String,
        input_runde3: String,
        input_hostname: String,
    ) -> (r: Auftrag)
        ensures
            r.input_runde1@ == input_runde1@,
            r.input_runde2@ == input_runde2@,
            r.input_runde3@ == input_runde3@,
            r.input_hostname@ == input_hostname@,
    {
        Auftrag { input_runde1, input_runde2, input_runde3, input_hostname }
    }

    /// All three round fields parse as decimal 32-bit integers.
    pub open spec fn rounds_parse(&self) -> bool {
        &&& is_i32_literal(self.input_runde1@)
        &&& is_i32_literal(self.input_runde2@)
        &&& is_i32_literal(self.input_runde3@)
    }

    /// The per-round image counts the form asks for, in round order.
    pub fn into_vec(self) -> (r: Result<Vec<i32>, NumberParseError>)
        ensures
            match r {
                Ok(v) => {
                    &&& self.rounds_parse()
                    &&& v@.len() == 3
                    &&& v@[0] as int == spec_int_of(self.input_runde1@)
                    &&& v@[1] as int == spec_int_of(self.input_runde2@)
                    &&& v@[2] as int == spec_int_of(self.input_runde3@)
                },
                Err(_) => !self.rounds_parse(),
            },
    {
        let r1 = parse_i32(self.input_runde1.as_str())?;
        let r2 = parse_i32(self.input_runde2.as_str())?;
        let r3 = parse_i32(self.input_runde3.as_str())?;
        let mut v: Vec<i32> = Vec::new();
        v.push(r1);
        v.push(r2);
        v.push(r3);
        Ok(v)
    }

    /// The remote device's base address, as entered.
    pub fn get_url(&self) -> (r: &String)
        ensures
            r@ == self.input_hostname@,
    {
        &self.input_hostname
    }
}

/// The capture stage's externally visible status: not yet polled, capturing
/// with the device's reported position, or complete.
#[derive(PartialEq, Eq, Structural, Clone, Copy, Debug)]
pub enum ImageAppStatus {
    Start,
    TakingImages(ServerStatus),
    Finished,
}

/// One text message pushed to the attached observer.
#[derive(Clone, Debug)]
pub struct Notification(pub String);

} // verus!
