//! The registry namespaces the workflow touches: hives and the views through
//! which a hive's keys are addressed.

use vstd::prelude::*;

verus! {

/// A root namespace of the registry.
#[derive(Clone, Copy, Debug, PartialEq, Eq, Structural)]
pub enum Hive {
    /// Settings of the whole machine.
    LocalMachine,
    /// Settings of the signed-in user.
    CurrentUser,
}

/// The sub-namespace through which a key is addressed. A 64-bit host keeps
/// two startup keys per hive, one for each redirected view, with contents of
/// their own; a 32-bit host has the native view only.
#[allow(non_camel_case_types)]
#[derive(Clone, Copy, Debug, PartialEq, Eq, Structural)]
pub enum RegistryView {
    /// The only view of a 32-bit host; also the view a command addresses
    /// when it names none.
    Native,
    /// The view of 32-bit processes on a 64-bit host.
    Wow64_32,
    /// The view of 64-bit processes on a 64-bit host.
    Wow64_64,
}

/// The lower-case form of an ASCII capital; any other character unchanged.
pub open spec fn ascii_lower(c: char) -> char {
    if 'A' <= c && c <= 'Z' {
        ((c as u8) + 32) as char
    } else {
        c
    }
}

/// A sequence with every ASCII capital replaced by its lower-case form.
pub open spec fn ascii_lowercase(s: Seq<char>) -> Seq<char> {
    Seq::new(s.len(), |i: int| ascii_lower(s[i]))
}

impl Hive {
    /// The name under which the registry tool knows the hive.
    pub open spec fn name_spec(self) -> Seq<char> {
        match self {
            Hive::LocalMachine => "HKEY_LOCAL_MACHINE"@,
            Hive::CurrentUser => "HKEY_CURRENT_USER"@,
        }
    }

    /// The hive's part of a backup file name.
    pub open spec fn file_stem_spec(self) -> Seq<char> {
        match self {
            Hive::LocalMachine => "hkey_local_machine"@,
            Hive::CurrentUser => "hkey_current_user"@,
        }
    }

    /// The name under which the registry tool knows the hive.
    pub fn name(self) -> (r: &'static str)
        ensures
            r@ == self.name_spec(),
    {
        match self {
            Hive::LocalMachine => "HKEY_LOCAL_MACHINE",
            Hive::CurrentUser => "HKEY_CURRENT_USER",
        }
    }

    /// The hive's part of a backup file name: its name in lower case.
    pub fn file_stem(self) -> (r: &'static str)
        ensures
            r@ == self.file_stem_spec(),
            r@ == ascii_lowercase(self.name_spec()),
    {
        proof {
            self.lemma_file_stem_is_lowercase_name();
        }
        match self {
            Hive::LocalMachine => "hkey_local_machine",
            Hive::CurrentUser => "hkey_current_user",
        }
    }

    /// The file stem of a hive is its name with every capital in lower case.
    pub proof fn lemma_file_stem_is_lowercase_name(self)
        ensures
            self.file_stem_spec() == ascii_lowercase(self.name_spec()),
    {
        reveal_strlit("HKEY_LOCAL_MACHINE");
        reveal_strlit("HKEY_CURRENT_USER");
        reveal_strlit("hkey_local_machine");
        reveal_strlit("hkey_current_user");
    }
}

impl RegistryView {
    /// The token that tells the views apart in a backup file name.
    pub open spec fn file_marker_spec(self) -> Seq<char> {
        match self {
            RegistryView::Native => ""@,
            RegistryView::Wow64_32 => "x32"@,
            RegistryView::Wow64_64 => "x64"@,
        }
    }

    /// Whether commands for this view carry the 64-bit switch.
    pub open spec fn targets_64bit(self) -> bool {
        self == RegistryView::Wow64_64
    }

    /// The token that tells the views apart in a backup file name.
    pub fn file_marker(self) -> (r: &'static str)
        ensures
            r@ == self.file_marker_spec(),
    {
        match self {
            RegistryView::Native => "",
            RegistryView::Wow64_32 => "x32",
            RegistryView::Wow64_64 => "x64",
        }
    }

    /// Whether commands for this view carry the 64-bit switch.
    pub fn is_64bit_view(self) -> (b: bool)
        ensures
            b == self.targets_64bit(),
    {
        match self {
            RegistryView::Wow64_64 => true,
            _ => false,
        }
    }
}

} // verus!
