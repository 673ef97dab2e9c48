use vstd::prelude::*;
use crate::error::{Error, ErrorKind};

verus! {

/// What looking a key up in the motherboard EEPROM comes to, from what
/// copying the value out gave: the value where that succeeded, no value
/// where the native library reported that it has no such key, and the error
/// otherwise.
pub fn value_from_copy(copied: Result<String, Error>) -> (value: Result<Option<String>, Error>)
    ensures
        match copied {
            Ok(text) => value == Ok::<Option<String>, Error>(Some(text)),
            Err(error) => if error.spec_kind() == ErrorKind::Key {
                value == Ok::<Option<String>, Error>(None)
            } else {
                value == Err::<Option<String>, Error>(error)
            },
        },
{
    match copied {
        Ok(value) => Ok(Some(value)),
        Err(e) => match e.kind() {
            ErrorKind::Key => Ok(None),
            _ => Err(e),
        },
    }
}

} // verus!
