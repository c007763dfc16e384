//! Darwin pthread quality-of-service classes.

use vstd::prelude::*;
use crate::text::{push_signed_decimal, push_str, signed_decimal_chars, string_from_chars};

verus! {

broadcast use vstd::string::group_string_axioms;

/// `pthread_set_qos_class_self_np` refused the class with this errno.
#[derive(Debug, Clone, Copy, PartialEq, Eq, Structural)]
pub struct QosError {
    pub code: i32,
}

impl QosError {
    pub fn message(&self) -> (r: String)
        ensures
            r@ == "pthread_set_qos_class_self_np failed with errno "@ + signed_decimal_chars(
                self.code as int,
            ),
    {
        let mut out: Vec<char> = Vec::new();
        push_str(&mut out, "pthread_set_qos_class_self_np failed with errno ");
        push_signed_decimal(&mut out, self.code as i64);
        string_from_chars(&out)
    }
}

/// A Darwin `qos_class_t` value.
#[derive(Debug, Clone, Copy, PartialEq, Eq, Structural)]
pub struct QosClass(pub u32);

/// `QOS_CLASS_USER_INTERACTIVE`, the class of inference threads.
pub fn qos_class_user_interactive() -> (r: QosClass)
    ensures
        r.0 == 0x21,
{
    QosClass(0x21)
}

} // verus!
