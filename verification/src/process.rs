//! What is known of the target process without touching it: the images of
//! its modules, and the choice of a module by name.

pub mod module;

use crate::error::ErrorKind;
use crate::utils::{decode_utf16_lossy, until_nul, w_to_str};
use vstd::prelude::*;

verus! {

/// The name that a module reports: the text of the UTF-16 units in front of
/// the first NUL of its name buffer.
pub open spec fn module_name(raw: Seq<u16>) -> Seq<char> {
    decode_utf16_lossy(until_nul(raw))
}

/// Picks a module by name from the name buffers of the loaded modules, in
/// the order in which the process lists them. The name has to be equal
/// character for character; of two modules with the same name the first is
/// taken.
pub fn find_module(names: &Vec<Vec<u16>>, name: &str) -> (found: Result<usize, ErrorKind>)
    ensures
        match found {
            Ok(index) => {
                &&& index < names@.len()
                &&& module_name(names@[index as int]@) == name@
                &&& forall|before: int|
                    0 <= before < index ==> module_name((#[trigger] names@[before])@) != name@
            },
            Err(error) => {
                &&& error == ErrorKind::ModuleNotFound
                &&& forall|index: int|
                    0 <= index < names@.len() ==> module_name((#[trigger] names@[index])@)
                        != name@
            },
        },
{
    let wanted = name.to_owned();
    let mut index: usize = 0;
    while index < names.len()
        invariant
            index <= names@.len(),
            wanted@ == name@,
            forall|before: int|
                0 <= before < index ==> module_name((#[trigger] names@[before])@) != name@,
        decreases names@.len() - index,
    {
        let reported = w_to_str(names[index].as_slice());
        if reported == wanted {
            return Ok(index);
        }
        index += 1;
    }
    Err(ErrorKind::ModuleNotFound)
}

} // verus!
