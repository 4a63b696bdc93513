use vstd::prelude::*;

verus! {

/// Firmware update. The OTA protocol is not decoded, so flashing always
/// fails, whatever the image.
pub fn flash(_path: &str) -> (r: Result<(), String>)
    ensures
        r matches Err(m) && m@ == "Firmware OTA not implemented"@,
{
    Err(String::from_str("Firmware OTA not implemented"))
}

} // verus!
