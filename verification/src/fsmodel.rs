//! An explicit model of the files a store touches: existence, the
//! read-only bit, and content. Every primitive is fallible; a `fault`
//! argument stands for the environment failing that step, and each
//! contract says exactly what holds on success and on failure.

use vstd::prelude::*;

verus! {

/// The modelled state of one file.
pub struct FileState {
    pub exists: bool,
    pub readonly: bool,
    pub content: String,
}

/// The mathematical view of a file: the content as a character sequence.
pub ghost struct FileV {
    pub exists: bool,
    pub readonly: bool,
    pub content: Seq<char>,
}

impl View for FileState {
    type V = FileV;

    open spec fn view(&self) -> FileV {
        FileV { exists: self.exists, readonly: self.readonly, content: self.content@ }
    }
}

/// A file-level failure.
#[derive(Clone, Copy, PartialEq, Eq, Structural, Debug)]
pub struct IoFault;

impl FileState {
    /// A file that does not exist yet.
    pub fn absent() -> (r: FileState)
        ensures
            !r@.exists,
            !r@.readonly,
            r@.content == Seq::<char>::empty(),
    {
        FileState { exists: false, readonly: false, content: String::new() }
    }

    /// An existing writable file with the given content.
    pub fn with_content(content: String) -> (r: FileState)
        ensures
            r@.exists,
            !r@.readonly,
            r@.content == content@,
    {
        FileState { exists: true, readonly: false, content }
    }
}

/// Sets or clears the read-only bit. Fails when the file is absent or the
/// environment faults; on failure nothing changes.
pub fn set_file_permissions(f: &mut FileState, readonly: bool, fault: bool) -> (r: Result<
    (),
    IoFault,
>)
    ensures
        r is Ok <==> (old(f)@.exists && !fault),
        r is Ok ==> final(f)@ == (FileV { readonly, ..old(f)@ }),
        r is Err ==> final(f)@ == old(f)@,
{
    if !f.exists || fault {
        Err(IoFault)
    } else {
        f.readonly = readonly;
        Ok(())
    }
}

/// Removes the file if it exists, clearing the read-only bit first.
/// Succeeds without change when the file is absent; on failure nothing
/// changes.
pub fn remove_file_if_exists(f: &mut FileState, fault: bool) -> (r: Result<(), IoFault>)
    ensures
        r is Ok <==> (!old(f)@.exists || !fault),
        r is Ok ==> final(f)@ == (FileV { exists: false, readonly: false, ..old(f)@ }),
        r is Err ==> final(f)@ == old(f)@,
{
    if !f.exists {
        f.readonly = false;
        assert(final(f)@ =~= (FileV { exists: false, readonly: false, ..old(f)@ }));
        Ok(())
    } else if fault {
        Err(IoFault)
    } else {
        f.exists = false;
        f.readonly = false;
        Ok(())
    }
}

/// Copies one file over another, content and read-only bit alike. Fails
/// when the source is absent or the environment faults; on failure the
/// destination is unchanged.
pub fn copy_file(src: &FileState, dst: &mut FileState, fault: bool) -> (r: Result<(), IoFault>)
    ensures
        r is Ok <==> (src@.exists && !fault),
        r is Ok ==> final(dst)@ == (FileV {
            exists: true,
            readonly: src@.readonly,
            content: src@.content,
        }),
        r is Err ==> final(dst)@ == old(dst)@,
{
    if !src.exists || fault {
        Err(IoFault)
    } else {
        dst.exists = true;
        dst.readonly = src.readonly;
        dst.content = src.content.clone();
        Ok(())
    }
}

/// Writes content to a file, creating it if absent. Fails when the file is
/// read-only or the environment faults; on failure nothing changes.
pub fn write_file(f: &mut FileState, content: &str, fault: bool) -> (r: Result<(), IoFault>)
    ensures
        r is Ok <==> (!(old(f)@.exists && old(f)@.readonly) && !fault),
        r is Ok ==> final(f)@ == (FileV { exists: true, readonly: false, content: content@ }),
        r is Err ==> final(f)@ == old(f)@,
{
    if (f.exists && f.readonly) || fault {
        Err(IoFault)
    } else {
        f.exists = true;
        f.readonly = false;
        f.content = content.to_owned();
        Ok(())
    }
}

/// Reads the file's content. Fails when the file is absent or the
/// environment faults.
pub fn read_file(f: &FileState, fault: bool) -> (r: Result<String, IoFault>)
    ensures
        r is Ok <==> (f@.exists && !fault),
        r is Ok ==> r->Ok_0@ == f@.content,
{
    if !f.exists || fault {
        Err(IoFault)
    } else {
        Ok(f.content.clone())
    }
}

} // verus!
