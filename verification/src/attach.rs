//! Loading the system's `d3d11.dll` when the process loads the proxy.

use crate::abi::DLL_PROCESS_ATTACH;
use crate::text::encode_utf16;
use vstd::prelude::*;

#[allow(unused_imports)]
use crate::loader::real_handle;
#[allow(unused_imports)]
use crate::text::{lemma_utf16_basic_plane, utf16};

verus! {

/// How many UTF-16 units there are for the path of the system's `d3d11.dll`.
pub const PATH_CAPACITY: usize = 512;

/// How the handling of a notification to the DLL goes on.
#[derive(Clone, Copy, Debug, PartialEq, Eq, Structural)]
pub enum Attach {
    /// Ask `GetSystemDirectoryW` for the system directory.
    QuerySystemDirectory,
    /// Load the library whose path stands in the buffer.
    LoadRealDll,
    /// Answer `ok`; where `store` has a handle, it is the system's `d3d11.dll`
    /// from now on.
    Finished { ok: bool, store: Option<usize> },
}

/// What is appended to the system directory.
pub open spec fn real_dll_suffix() -> Seq<u16> {
    utf16("\\d3d11.dll\0"@)
}

/// The path of the `d3d11.dll` in the directory `dir`, ended by a zero unit.
pub open spec fn real_dll_path(dir: Seq<u16>) -> Seq<u16> {
    dir + real_dll_suffix()
}

/// Whether a directory whose path has `len` units leaves room for the file's name;
/// a length of zero reports a failure.
pub open spec fn directory_usable(len: u32) -> bool {
    len != 0 && len + real_dll_suffix().len() <= PATH_CAPACITY
}

/// The suffix unit by unit.
pub proof fn lemma_suffix()
    ensures
        real_dll_suffix() == seq![
            0x5cu16,
            0x64u16,
            0x33u16,
            0x64u16,
            0x31u16,
            0x31u16,
            0x2eu16,
            0x64u16,
            0x6cu16,
            0x6cu16,
            0u16,
        ],
{
    reveal_strlit("\\d3d11.dll\0");
    lemma_utf16_basic_plane("\\d3d11.dll\0"@);
}

/// How a notification is taken up.
pub open spec fn notified(reason: u32) -> Attach {
    if reason == DLL_PROCESS_ATTACH {
        Attach::QuerySystemDirectory
    } else {
        Attach::Finished { ok: true, store: None }
    }
}

/// How the attachment goes on with a system directory of `len` units.
pub open spec fn with_directory(len: u32) -> Attach {
    if directory_usable(len) {
        Attach::LoadRealDll
    } else {
        Attach::Finished { ok: false, store: None }
    }
}

/// How the attachment ends with the outcome of loading the library.
pub open spec fn with_real(loaded: Option<usize>) -> Attach {
    Attach::Finished { ok: loaded is Some, store: loaded }
}

/// Takes a notification to the DLL. Only the attachment to a process has to be
/// acted on; every other notification is answered at once.
#[allow(non_snake_case)]
pub fn DllMain(_hinst: usize, reason: u32, _reserved: usize) -> (attach: Attach)
    ensures
        attach == notified(reason),
{
    if reason == DLL_PROCESS_ATTACH {
        Attach::QuerySystemDirectory
    } else {
        Attach::Finished { ok: true, store: None }
    }
}

/// Takes the system directory, `len` units long, in `buf`, and appends the name of
/// the library to load. Refuses where there is no directory or no room.
pub fn system_directory_known(buf: &mut [u16; PATH_CAPACITY], len: u32) -> (attach: Attach)
    ensures
        attach == with_directory(len),
        final(buf)@ == (if directory_usable(len) {
            real_dll_path(old(buf)@.take(len as int)) + old(buf)@.skip(
                len + real_dll_suffix().len(),
            )
        } else {
            old(buf)@
        }),
{
    let suffix: Vec<u16> = encode_utf16("\\d3d11.dll\0");
    proof {
        lemma_suffix();
    }
    if len == 0 {
        return Attach::Finished { ok: false, store: None };
    }
    let start: usize = len as usize;
    if start > PATH_CAPACITY || suffix.len() > PATH_CAPACITY - start {
        return Attach::Finished { ok: false, store: None };
    }
    let ghost dir = buf@.take(len as int);
    let ghost rest = buf@.skip(len + suffix@.len());
    let mut i: usize = 0;
    while i < suffix.len()
        invariant
            i <= suffix@.len(),
            suffix@ == real_dll_suffix(),
            suffix@.len() == 11,
            start + suffix@.len() <= 512,
            buf@.len() == 512,
            dir.len() == start,
            rest.len() == 512 - start - suffix@.len(),
            buf@.take(start as int) == dir,
            forall|j: int| 0 <= j < i ==> #[trigger] buf@[start + j] == suffix@[j],
            buf@.skip(start + suffix@.len()) == rest,
        decreases suffix@.len() - i,
    {
        let ghost before = buf@;
        buf[start + i] = suffix[i];
        assert(buf@ =~= before.update(start + i, suffix@[i as int]));
        assert(buf@.take(start as int) =~= dir) by {
            assert(before.take(start as int) == dir);
            assert forall|k: int| 0 <= k < start implies buf@[k] == dir[k] by {
                assert(before.take(start as int)[k] == before[k]);
            }
        }
        assert(buf@.skip(start + suffix@.len()) =~= rest) by {
            assert(before.skip(start + suffix@.len()) == rest);
            assert forall|k: int| 0 <= k < rest.len() implies buf@[start + suffix@.len() + k]
                == rest[k] by {
                assert(before.skip(start + suffix@.len())[k] == before[start + suffix@.len() + k]);
            }
        }
        i += 1;
    }
    proof {
        let wanted = real_dll_path(dir) + rest;
        assert forall|k: int| 0 <= k < 512 implies buf@[k] == wanted[k] by {
            if k < start {
                assert(buf@.take(start as int)[k] == buf@[k]);
            } else if k < start + suffix@.len() {
                assert(buf@[start + (k - start)] == suffix@[k - start]);
            } else {
                let m = k - start - suffix@.len();
                assert(buf@.skip(start + suffix@.len())[m] == buf@[k]);
            }
        }
        assert(buf@ =~= wanted);
    }
    Attach::LoadRealDll
}

/// Takes the outcome of loading the system's `d3d11.dll`: its handle, or `None`
/// where it could not be loaded.
pub fn real_dll_loaded(loaded: Option<usize>) -> (attach: Attach)
    ensures
        attach == with_real(loaded),
{
    match loaded {
        Some(h) => Attach::Finished { ok: true, store: Some(h) },
        None => Attach::Finished { ok: false, store: None },
    }
}

/// The path that is loaded is the directory, a backslash and `d3d11.dll`; it is
/// ended by a zero unit, and the whole of it stands inside the buffer.
pub proof fn law_path_is_terminated(dir: Seq<u16>)
    requires
        directory_usable(dir.len() as u32),
        dir.len() <= u32::MAX,
    ensures
        real_dll_path(dir).len() <= PATH_CAPACITY,
        real_dll_path(dir).last() == 0,
        real_dll_path(dir).take(dir.len() as int) == dir,
        real_dll_path(dir)[dir.len() as int] == 0x5c,
{
    lemma_suffix();
    assert(real_dll_path(dir).take(dir.len() as int) =~= dir);
}

/// The end of the handling of a notification, where the system directory has `len`
/// units and loading the library has the outcome `loaded`, if it comes to that.
pub open spec fn outcome(reason: u32, len: u32, loaded: Option<usize>) -> Attach {
    match notified(reason) {
        Attach::QuerySystemDirectory => match with_directory(len) {
            Attach::LoadRealDll => with_real(loaded),
            ended => ended,
        },
        ended => ended,
    }
}

/// The process is told to go on exactly where there was nothing to do or the
/// system's `d3d11.dll` was loaded, and only in the second case a handle is stored:
/// its own, which is what is found from then on.
pub proof fn law_attachment(reason: u32, len: u32, loaded: Option<usize>)
    ensures
        outcome(reason, len, loaded) matches Attach::Finished { ok, store } && {
            &&& ok <==> reason != DLL_PROCESS_ATTACH || (directory_usable(len) && loaded is Some)
            &&& store == (if reason == DLL_PROCESS_ATTACH && directory_usable(len) {
                loaded
            } else {
                None
            })
            &&& store is Some && store != Some(0usize) ==> real_handle(store->0) == store
        },
{
}

/// Only the attachment to a process is acted on; every other notification is
/// answered with success at once. The system directory is refused only where there is
/// none or where it leaves no room for the eleven units of the file's name. The
/// process is told of success exactly where the library was loaded, and then its
/// handle is stored, whatever it is.
pub proof fn law_each_step_of_the_attachment(reason: u32, len: u32, handle: usize)
    ensures
        reason == 1 ==> notified(reason) == Attach::QuerySystemDirectory,
        reason != 1 ==> notified(reason) == (Attach::Finished { ok: true, store: None }),
        1 <= len <= 501 ==> directory_usable(len) && with_directory(len) == Attach::LoadRealDll,
        len == 0 || len > 501 ==> !directory_usable(len) && with_directory(len) == (
        Attach::Finished { ok: false, store: None }),
        with_real(Some(handle)) == (Attach::Finished { ok: true, store: Some(handle) }),
        with_real(None) == (Attach::Finished { ok: false, store: None }),
        PATH_CAPACITY == 512,
{
    lemma_suffix();
}

/// The path of the library is the directory as it was given, followed by a backslash,
/// `d3d11.dll` and a zero unit, and nothing else.
pub proof fn law_path_of_the_library(dir: Seq<u16>)
    ensures
        real_dll_path(dir) == dir + seq![
            0x5cu16,
            0x64u16,
            0x33u16,
            0x64u16,
            0x31u16,
            0x31u16,
            0x2eu16,
            0x64u16,
            0x6cu16,
            0x6cu16,
            0u16,
        ],
        real_dll_path(dir).len() == dir.len() + real_dll_suffix().len(),
        real_dll_suffix().len() == 11,
{
    lemma_suffix();
}

} // verus!
