//! The bootloader argument: `efi,variable-store=<path>,create`.

use crate::cmdline::check_required_args;
use crate::cmdline::check_unknown_args;
use crate::cmdline::lemma_required_present;
use crate::cmdline::lookup;
use crate::cmdline::parse_args;
use crate::cmdline::parse_spec;
use crate::cmdline::required_spec;
use crate::cmdline::unknown_spec;
use crate::cmdline::without_key;
use crate::error::Error;
use crate::error::ErrorView;
use crate::text::eq_ignore_case;
use crate::text::str_eq_ignore_case;
use crate::virtio::built_as;
use vstd::prelude::*;

verus! {

/// The firmware that boots the guest.
#[derive(Clone, Copy, Debug, PartialEq, Eq)]
pub enum BootloaderFw {
    Efi,
}

impl BootloaderFw {
    /// Reads `efi`, in any case.
    pub fn from_str(s: &str) -> (r: Result<Self, Error>)
        ensures
            eq_ignore_case(s@, "efi"@) ==> r == Ok::<Self, Error>(BootloaderFw::Efi),
            !eq_ignore_case(s@, "efi"@) ==> (r matches Err(x) && x@
                == ErrorView::InvalidBootloaderFirmware { value: s@ }),
    {
        if str_eq_ignore_case(s, "efi") {
            Ok(BootloaderFw::Efi)
        } else {
            Err(Error::InvalidBootloaderFirmware { value: String::from_str(s) })
        }
    }
}

/// What is done with the variable store.
#[derive(Clone, Copy, Debug, PartialEq, Eq)]
pub enum Action {
    Create,
}

impl Action {
    /// Reads `create`, in any case.
    pub fn from_str(s: &str) -> (r: Result<Self, Error>)
        ensures
            eq_ignore_case(s@, "create"@) ==> r == Ok::<Self, Error>(Action::Create),
            !eq_ignore_case(s@, "create"@) ==> (r matches Err(x) && x@
                == ErrorView::InvalidBootloaderAction { value: s@ }),
    {
        if str_eq_ignore_case(s, "create") {
            Ok(Action::Create)
        } else {
            Err(Error::InvalidBootloaderAction { value: String::from_str(s) })
        }
    }
}

/// The path of the variable store.
#[derive(Clone, Debug, PartialEq, Eq)]
pub struct Vstore(pub String);

impl Vstore {
    /// Takes any text as the path.
    pub fn from_str(s: &str) -> (r: Result<Self, Error>)
        ensures
            r matches Ok(v) && v.0@ == s@,
    {
        Ok(Vstore(String::from_str(s)))
    }
}

/// The bootloader of the guest.
#[derive(Clone, Debug, PartialEq, Eq)]
pub struct Config {
    pub fw: BootloaderFw,
    pub vstore: String,
    pub action: Action,
}

/// The mathematical value of a [`Config`].
pub struct ConfigView {
    pub fw: BootloaderFw,
    pub vstore: Seq<char>,
    pub action: Action,
}

impl View for Config {
    type V = ConfigView;

    open spec fn view(&self) -> ConfigView {
        ConfigView { fw: self.fw, vstore: self.vstore@, action: self.action }
    }
}

/// The names of the bootloader's arguments differ from each other.
pub proof fn lemma_bootloader_names()
    ensures
        "efi"@ != "variable-store"@,
        "efi"@ != "create"@,
        "variable-store"@ != "create"@,
{
    reveal_strlit("efi");
    reveal_strlit("variable-store");
    reveal_strlit("create");
    assert("efi"@.len() == 3);
    assert("variable-store"@.len() == 14);
    assert("create"@.len() == 6);
}

/// The bootloader that a list of pairs stands for: the flags `efi` and `create` without
/// a value, the key `variable-store` with the path, and no other key.
pub open spec fn bootloader_args_spec(p: Seq<(Seq<char>, Seq<char>)>) -> Result<
    ConfigView,
    ErrorView,
> {
    let label = "bootloader"@;
    let required = seq!["efi"@, "variable-store"@, "create"@];
    let rest = without_key(without_key(without_key(p, "efi"@), "variable-store"@), "create"@);
    if required_spec(p, label, required) is Err {
        Err(required_spec(p, label, required)->Err_0)
    } else if (lookup(p, "efi"@)->0).len() != 0 {
        Err(ErrorView::UnknownBootloaderArgument { key: "efi"@, value: lookup(p, "efi"@)->0 })
    } else if (lookup(p, "create"@)->0).len() != 0 {
        Err(
            ErrorView::UnknownBootloaderArgument {
                key: "create"@,
                value: lookup(p, "create"@)->0,
            },
        )
    } else if unknown_spec(rest, label) is Err {
        Err(unknown_spec(rest, label)->Err_0)
    } else {
        Ok(
            ConfigView {
                fw: BootloaderFw::Efi,
                vstore: lookup(p, "variable-store"@)->0,
                action: Action::Create,
            },
        )
    }
}

/// The bootloader that an argument string stands for.
pub open spec fn bootloader_spec(s: Seq<char>) -> Result<ConfigView, ErrorView> {
    match parse_spec(s) {
        Err(e) => Err(e),
        Ok(p) => bootloader_args_spec(p),
    }
}

impl Config {
    /// Builds the bootloader from its arguments.
    pub fn from_str(s: &str) -> (r: Result<Self, Error>)
        ensures
            built_as(r, bootloader_spec(s@)),
    {
        let mut args = parse_args(String::from_str(s))?;
        let ghost p = args.pairs();
        let required = ["efi", "variable-store", "create"];
        proof {
            lemma_bootloader_names();
            assert(crate::cmdline::strs(required@) =~= seq![
                "efi"@,
                "variable-store"@,
                "create"@,
            ]);
        }
        check_required_args(&args, "bootloader", &required)?;
        proof {
            let req = seq!["efi"@, "variable-store"@, "create"@];
            lemma_required_present(p, "bootloader"@, req, 0);
            lemma_required_present(p, "bootloader"@, req, 1);
            lemma_required_present(p, "bootloader"@, req, 2);
        }
        let fw = args.remove("efi").unwrap();
        if fw.as_str().unicode_len() != 0 {
            return Err(
                Error::UnknownBootloaderArgument { key: String::from_str("efi"), value: fw },
            );
        }
        let vstore = args.remove("variable-store").unwrap();
        let action = args.remove("create").unwrap();
        if action.as_str().unicode_len() != 0 {
            return Err(
                Error::UnknownBootloaderArgument {
                    key: String::from_str("create"),
                    value: action,
                },
            );
        }
        check_unknown_args(args, "bootloader")?;
        Ok(Config { fw: BootloaderFw::Efi, vstore, action: Action::Create })
    }
}

} // verus!
