//! The values of the Windows API that the locators depend on, and the rules
//! by which what its calls hand back is read.

use crate::path::{encode_wide, utf16, HostPath};
use crate::probe::{Answer, AnswerView, Probe, ProbeView};
use vstd::prelude::*;
use vstd::string::*;

verus! {

/// The status with which a registry call reports success.
pub const ERROR_SUCCESS: u32 = 0;

/// The right to read the values of a registry key.
pub const KEY_QUERY_VALUE: u32 = 0x0001;

/// The right to enumerate the subkeys of a registry key.
pub const KEY_ENUMERATE_SUB_KEYS: u32 = 0x0008;

/// Opens a key in the 32-bit view of the registry.
pub const KEY_WOW64_32KEY: u32 = 0x0200;

/// The type of a registry value that holds a string.
pub const REG_SZ: u32 = 1;

/// The result with which an interop call reports plain success.
pub const S_OK: i32 = 0;

/// The result with which an interop call reports success with nothing done:
/// the subsystem was initialised before, the enumerator is exhausted.
pub const S_FALSE: i32 = 1;

/// A point in time as the file system counts it.
#[allow(non_snake_case)]
#[derive(Clone, Copy, Debug, PartialEq, Eq)]
pub struct FILETIME {
    pub dwLowDateTime: u32,
    pub dwHighDateTime: u32,
}

/// A globally unique identifier of an interop class or interface.
#[derive(Clone, Copy, Debug, PartialEq, Eq)]
pub struct GUID {
    pub data1: u32,
    pub data2: u16,
    pub data3: u16,
    pub data4: [u8; 8],
}

impl GUID {
    /// The class of the installation-registration service,
    /// `177F0C4A-1CD3-4DE7-A32C-71DBBB9FA36D`.
    pub fn setup_configuration_class() -> (id: GUID)
        ensures
            id.data1 == 0x177F0C4A,
            id.data2 == 0x1CD3,
            id.data3 == 0x4DE7,
            id.data4@ == seq![0xA3u8, 0x2C, 0x71, 0xDB, 0xBB, 0x9F, 0xA3, 0x6D],
    {
        GUID {
            data1: 0x177F0C4A,
            data2: 0x1CD3,
            data3: 0x4DE7,
            data4: [0xA3, 0x2C, 0x71, 0xDB, 0xBB, 0x9F, 0xA3, 0x6D],
        }
    }

    /// The interface through which the service enumerates installations,
    /// `42843719-DB4C-46C2-8E7C-64F1816EFD5B`.
    pub fn setup_configuration_interface() -> (id: GUID)
        ensures
            id.data1 == 0x42843719,
            id.data2 == 0xDB4C,
            id.data3 == 0x46C2,
            id.data4@ == seq![0x8Eu8, 0x7C, 0x64, 0xF1, 0x81, 0x6E, 0xFD, 0x5B],
    {
        GUID {
            data1: 0x42843719,
            data2: 0xDB4C,
            data3: 0x46C2,
            data4: [0x8E, 0x7C, 0x64, 0xF1, 0x81, 0x6E, 0xFD, 0x5B],
        }
    }
}

/// The handle of a registry key. A key that was never opened has the handle
/// zero, which the host closes without harm.
#[derive(Debug)]
pub struct RegKey {
    handle: isize,
}

impl RegKey {
    /// The handle that the key holds.
    pub closed spec fn raw(self) -> isize {
        self.handle
    }

    /// A key that holds no handle yet.
    pub fn zeroed() -> (key: RegKey)
        ensures
            key.raw() == 0,
    {
        RegKey { handle: 0 }
    }

    /// The handle that the key holds.
    pub fn handle(&self) -> (handle: isize)
        ensures
            handle == self.raw(),
    {
        self.handle
    }

    /// Hands the key the handle that the host opened.
    pub fn set_handle(&mut self, handle: isize)
        ensures
            final(self).raw() == handle,
    {
        self.handle = handle;
    }
}

/// Whether an interop call with the result `hr` has done what the probe
/// asked for. To hand out an installation or its path the call has to
/// report plain success; the other calls may report any success.
pub open spec fn interop_done(probe: ProbeView, hr: i32) -> bool {
    match probe {
        ProbeView::NextInstance => hr == S_OK,
        ProbeView::InstallationPath => hr == S_OK,
        _ => hr >= 0,
    }
}

/// Tells whether an interop call with the result `hr` has done what the
/// probe asked for.
pub fn interop_succeeded(probe: &Probe, hr: i32) -> (done: bool)
    ensures
        done == interop_done(probe@, hr),
{
    match probe {
        Probe::NextInstance => hr == S_OK,
        Probe::InstallationPath => hr == S_OK,
        _ => hr >= 0,
    }
}

/// Writes `name` as the wide string that the registry takes: in UTF-16,
/// with a zero at its end.
pub fn wide_name(name: &str) -> (wide: Vec<u16>)
    ensures
        wide@ == utf16(name@).push(0),
{
    let mut wide = encode_wide(name);
    wide.push(0);
    wide
}

/// The answer to the probe for an installation path: the path that the
/// installation handed out as `units`, every unit of it, if the call came
/// back with plain success.
pub fn installation_path_answer(hr: i32, units: Vec<u16>) -> (answer: Answer)
    ensures
        answer@ == if hr == S_OK {
            AnswerView::Path(units@)
        } else {
            AnswerView::Failed
        },
{
    if hr != S_OK {
        return Answer::Failed;
    }
    Answer::Path(HostPath { units })
}

/// The buffer to read a string value into, once the registry has been asked
/// for the value's type and size: none where that call failed or the value
/// is no string, else a buffer of two bytes for every code unit.
pub fn string_value_buffer(status: u32, kind: u32, required_bytes: u32) -> (buffer: Option<
    Vec<u16>,
>)
    requires
        status == ERROR_SUCCESS && kind == REG_SZ ==> required_bytes % 2 == 0,
    ensures
        match buffer {
            Some(buffer) => status == ERROR_SUCCESS && kind == REG_SZ && buffer@ == Seq::new(
                (required_bytes / 2) as nat,
                |i: int| 0u16,
            ),
            None => status != ERROR_SUCCESS || kind != REG_SZ,
        },
{
    if status != ERROR_SUCCESS || kind != REG_SZ {
        return None;
    }
    let len: usize = (required_bytes / 2) as usize;
    let mut buffer: Vec<u16> = Vec::new();
    let mut i: usize = 0;
    while i < len
        invariant
            i <= len,
            buffer@ == Seq::new(i as nat, |i: int| 0u16),
        decreases len - i,
    {
        buffer.push(0);
        i += 1;
    }
    Some(buffer)
}

/// The code units of a string value that the registry wrote into `value`
/// as `written_bytes` bytes: those it wrote, without the zero at their end
/// where there is one.
pub open spec fn value_units(value: Seq<u16>, written_bytes: u32) -> Seq<u16> {
    let written = value.take(written_bytes as int / 2);
    if written.len() > 0 && written.last() == 0 {
        written.drop_last()
    } else {
        written
    }
}

/// Reads the string value that the registry wrote into `value`.
///
/// There is none where the call failed with `status`. Else the value is
/// what was written, unit for unit, without the zero at its end where there
/// is one.
pub fn reg_query_string_value(status: u32, value: Vec<u16>, written_bytes: u32) -> (text: Option<
    HostPath,
>)
    requires
        status == ERROR_SUCCESS ==> written_bytes % 2 == 0 && written_bytes / 2 <= value.len(),
    ensures
        text.deep_view() == if status == ERROR_SUCCESS {
            Some(value_units(value@, written_bytes))
        } else {
            None
        },
{
    if status != ERROR_SUCCESS {
        return None;
    }
    let mut value = value;
    let actual_len: usize = (written_bytes / 2) as usize;
    value.truncate(actual_len);
    if actual_len > 0 && value[actual_len - 1] == 0 {
        value.pop();
    }
    Some(HostPath { units: value })
}

} // verus!
