//! Backend configuration: which backends to run, and the descriptor
//! mini-language (`polkavm`, `stdin=<path>`, `jsonrpc=<endpoint>`) used on
//! the command line and in configuration files.

use vstd::prelude::*;
use vstd::string::StrSliceExecFns;
use vstd::string::StringExecFns;

use crate::api::{Error, ErrorModel};

verus! {

broadcast use vstd::string::group_string_axioms;

/// The ordered list of backend descriptors to run.
pub struct Config {
    pub pvm: Vec<Pvm>,
}

/// One backend descriptor.
#[derive(Debug)]
pub enum Pvm {
    /// The embedded native engine.
    PolkaVM,
    /// A subprocess backend: the executable to spawn with piped streams.
    Stdin { name: Option<String>, binary: String },
    /// A remote backend, reserved: selecting it fails clearly downstream.
    JsonRpc { name: Option<String>, endpoint: String },
}

/// Model of a backend descriptor.
pub enum PvmModel {
    PolkaVM,
    Stdin { name: Option<Seq<char>>, binary: Seq<char> },
    JsonRpc { name: Option<Seq<char>>, endpoint: Seq<char> },
}

impl View for Pvm {
    type V = PvmModel;

    open spec fn view(&self) -> PvmModel {
        match self {
            Pvm::PolkaVM => PvmModel::PolkaVM,
            Pvm::Stdin { name, binary } => PvmModel::Stdin {
                name: match name {
                    Some(n) => Some(n@),
                    None => None,
                },
                binary: binary@,
            },
            Pvm::JsonRpc { name, endpoint } => PvmModel::JsonRpc {
                name: match name {
                    Some(n) => Some(n@),
                    None => None,
                },
                endpoint: endpoint@,
            },
        }
    }
}

/// The descriptor mini-language: `polkavm` selects the embedded engine,
/// `stdin=<path>` a subprocess backend, `jsonrpc=<endpoint>` the reserved
/// remote backend; anything else is rejected.
pub open spec fn pvm_of_descriptor(s: Seq<char>) -> Result<PvmModel, ()> {
    if s == "polkavm"@ {
        Ok(PvmModel::PolkaVM)
    } else if s.len() >= 6 && s.subrange(0, 6) == "stdin="@ {
        Ok(PvmModel::Stdin { name: None, binary: s.subrange(6, s.len() as int) })
    } else if s.len() >= 8 && s.subrange(0, 8) == "jsonrpc="@ {
        Ok(PvmModel::JsonRpc { name: None, endpoint: s.subrange(8, s.len() as int) })
    } else {
        Err(())
    }
}

/// Whether an executable parse agrees with the mini-language.
pub open spec fn parse_result_matches(r: Result<Pvm, Error>, m: Result<PvmModel, ()>, s: Seq<
    char,
>) -> bool {
    match (r, m) {
        (Ok(p), Ok(pm)) => p@ == pm,
        (Err(e), Err(_)) => e@ == ErrorModel::Other("invalid PVM descriptor: "@ + s),
        _ => false,
    }
}

/// Whether `p` is a prefix of `s`.
fn has_prefix(s: &str, p: &str) -> (r: bool)
    ensures
        r == (s@.len() >= p@.len() && s@.subrange(0, p@.len() as int) == p@),
{
    let n = p.unicode_len();
    if s.unicode_len() < n {
        return false;
    }
    let mut i: usize = 0;
    while i < n
        invariant
            i <= n,
            n == p@.len(),
            s@.len() >= n,
            forall|j: int| 0 <= j < i ==> s@[j] == p@[j],
        decreases n - i,
    {
        if s.get_char(i) != p.get_char(i) {
            proof {
                assert(s@.subrange(0, p@.len() as int)[i as int] == s@[i as int]);
            }
            return false;
        }
        i = i + 1;
    }
    proof {
        assert(s@.subrange(0, p@.len() as int) =~= p@);
    }
    true
}

impl Pvm {
    /// Parses one backend descriptor, exactly as the mini-language defines
    /// it; anything else is rejected with a message naming the descriptor.
    pub fn parse(descriptor: &str) -> (r: Result<Pvm, Error>)
        ensures
            parse_result_matches(r, pvm_of_descriptor(descriptor@), descriptor@),
    {
        proof {
            reveal_strlit("polkavm");
            reveal_strlit("stdin=");
            reveal_strlit("jsonrpc=");
        }
        let owned = descriptor.to_owned();
        if owned == String::from_str("polkavm") {
            Ok(Pvm::PolkaVM)
        } else if has_prefix(descriptor, "stdin=") {
            let rest = descriptor.substring_char(6, descriptor.unicode_len());
            Ok(Pvm::Stdin { name: None, binary: rest.to_owned() })
        } else if has_prefix(descriptor, "jsonrpc=") {
            let rest = descriptor.substring_char(8, descriptor.unicode_len());
            Ok(Pvm::JsonRpc { name: None, endpoint: rest.to_owned() })
        } else {
            let mut message = String::from_str("invalid PVM descriptor: ");
            message.append(descriptor);
            Err(Error::Other(message))
        }
    }
}

} // verus!
