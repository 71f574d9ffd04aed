//! Classification of the operating-system errors a serial link reports.

use vstd::prelude::*;

verus! {

/// OS error code for `EIO`, returned by the kernel for reads/writes on a
/// USB serial device that has disappeared (unplugged, lost power, etc.).
pub const EIO: i32 = 5;

/// OS error code for `ENXIO`, occasionally returned instead of `EIO` for the
/// same "device is gone" condition, depending on driver/platform.
pub const ENXIO: i32 = 6;

/// Whether an I/O error with OS error code `raw_os_error` means that the
/// printer's USB device is physically gone (`EIO`/`ENXIO`), so that the
/// connection cannot be reused; any other error (or one with no OS code) is
/// potentially transient and worth retrying.
pub fn is_device_gone(raw_os_error: Option<i32>) -> (gone: bool)
    ensures
        gone <==> (raw_os_error == Some(EIO) || raw_os_error == Some(ENXIO)),
{
    match raw_os_error {
        Some(code) => code == EIO || code == ENXIO,
        None => false,
    }
}

} // verus!
