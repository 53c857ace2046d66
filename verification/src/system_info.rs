//! What a plugin reports about itself.

use vstd::prelude::*;
use vstd::string::StringExecFns;
use crate::text::same_text;

verus! {

/// The system that the plugin named `library_name` emulates, where the
/// runtime knows it.
pub open spec fn system_id_of(library_name: Seq<char>) -> Option<Seq<char>> {
    if library_name == "Gambatte"@ || library_name == "SameBoy"@ {
        Some("game_boy"@)
    } else {
        None
    }
}

/// The system that the plugin named `library_name` emulates, where the
/// runtime knows it.
pub fn system_id_from_library_name(library_name: &str) -> (r: Option<&'static str>)
    ensures
        match r {
            Some(id) => system_id_of(library_name@) == Some(id@),
            None => system_id_of(library_name@) is None,
        },
{
    if same_text(library_name, "Gambatte") || same_text(library_name, "SameBoy") {
        Some("game_boy")
    } else {
        None
    }
}

/// The mathematical content of a [`SystemInfo`].
pub ghost struct SystemInfoView {
    pub library_name: Seq<char>,
    pub library_version: Seq<char>,
    pub valid_extensions: Seq<char>,
    pub need_fullpath: bool,
    pub block_extract: bool,
    pub system_id: Option<Seq<char>>,
}

/// What a plugin reports about itself, with the system it emulates.
#[derive(Debug)]
pub struct SystemInfo {
    pub library_name: String,
    pub library_version: String,
    pub valid_extensions: String,
    pub need_fullpath: bool,
    pub block_extract: bool,
    pub system_id: Option<&'static str>,
}

impl View for SystemInfo {
    type V = SystemInfoView;

    open spec fn view(&self) -> SystemInfoView {
        SystemInfoView {
            library_name: self.library_name@,
            library_version: self.library_version@,
            valid_extensions: self.valid_extensions@,
            need_fullpath: self.need_fullpath,
            block_extract: self.block_extract,
            system_id: match self.system_id {
                Some(id) => Some(id@),
                None => None,
            },
        }
    }
}

impl SystemInfo {
    /// The report with these fields, and with the system that the library
    /// name stands for.
    pub fn new(
        library_name: String,
        library_version: String,
        valid_extensions: String,
        need_fullpath: bool,
        block_extract: bool,
    ) -> (r: SystemInfo)
        ensures
            r@ == (SystemInfoView {
                library_name: library_name@,
                library_version: library_version@,
                valid_extensions: valid_extensions@,
                need_fullpath,
                block_extract,
                system_id: system_id_of(library_name@),
            }),
    {
        let system_id = system_id_from_library_name(library_name.as_str());
        SystemInfo {
            library_name,
            library_version,
            valid_extensions,
            need_fullpath,
            block_extract,
            system_id,
        }
    }

    /// A copy that borrows nothing.
    pub fn to_owned(&self) -> (r: SystemInfo)
        ensures
            r@ == self@,
    {
        SystemInfo {
            library_name: self.library_name.clone(),
            library_version: self.library_version.clone(),
            valid_extensions: self.valid_extensions.clone(),
            need_fullpath: self.need_fullpath,
            block_extract: self.block_extract,
            system_id: self.system_id,
        }
    }

    /// The name under which the running system is reported: the system id
    /// where it is known, the plugin's own name where it is not.
    pub fn reported_system(&self) -> (r: String)
        ensures
            r@ == reported_system(self@),
    {
        match self.system_id {
            Some(id) => String::from_str(id),
            None => self.library_name.clone(),
        }
    }
}

/// The name under which the running system is reported.
pub open spec fn reported_system(info: SystemInfoView) -> Seq<char> {
    match info.system_id {
        Some(id) => id,
        None => info.library_name,
    }
}

} // verus!
