//! Decision layer of the contract-verification request queue.
//!
//! The queue itself lives in a relational store and its reads and writes are
//! plain SQL performed outside the library.  What is decided about the rows
//! those queries return — which creation calldata counts as a deployment,
//! how a request's status is assembled, when a contract counts as verified —
//! is implemented and verified here.

use vstd::prelude::*;
use crate::types::AccountAddress;

verus! {

/// The distinguished system address that deploys contracts.
pub open spec fn spec_contract_deployer_address() -> AccountAddress {
    AccountAddress { hi: 0, lo: 0x8006 }
}

/// Whether a recorded creator address is the contract deployer.
pub open spec fn spec_is_deployer(creator: Option<AccountAddress>) -> bool {
    creator matches Some(a) && a == spec_contract_deployer_address()
}

/// An ASCII byte that is a hexadecimal digit.
pub open spec fn spec_is_hex_digit(b: u8) -> bool {
    ||| 0x30 <= b <= 0x39
    ||| 0x41 <= b <= 0x46
    ||| 0x61 <= b <= 0x66
}

/// Value of a hexadecimal digit byte.
pub open spec fn spec_hex_val(b: u8) -> u8
    recommends
        spec_is_hex_digit(b),
{
    if 0x30 <= b <= 0x39 {
        (b - 0x30) as u8
    } else if 0x41 <= b <= 0x46 {
        (b - 0x41 + 10) as u8
    } else {
        (b - 0x61 + 10) as u8
    }
}

/// A well-formed hexadecimal string: even length, hex digits throughout.
pub open spec fn spec_valid_hex(s: Seq<u8>) -> bool {
    &&& s.len() % 2 == 0
    &&& forall|i: int| 0 <= i < s.len() ==> spec_is_hex_digit(#[trigger] s[i])
}

/// The bytes a hexadecimal string denotes, two digits per byte.
pub open spec fn spec_hex_decoded(s: Seq<u8>) -> Seq<u8> {
    Seq::new(s.len() / 2, |i: int| (spec_hex_val(s[2 * i]) * 16 + spec_hex_val(s[2 * i + 1])) as u8)
}

/// Relies on `hex::decode`: it succeeds exactly on an even-length string of
/// hexadecimal digit bytes (upper or lower case) and returns the bytes the
/// string denotes, two digits per byte.
#[verifier::external_body]
fn decode_hex(data: &[u8]) -> (r: Option<Vec<u8>>)
    ensures
        r is Some <==> spec_valid_hex(data@),
        r matches Some(v) ==> v@ == spec_hex_decoded(data@),
{
    hex::decode(data).ok()
}

/// Calldata of the transaction that created a contract, when that
/// transaction was a deployment.
#[derive(Clone, Debug, PartialEq, Eq)]
pub enum DeployContractCalldata {
    Deploy(Vec<u8>),
    Ignore,
}

/// Status of one verification request, as reported to the submitter.
#[derive(Clone, Debug, PartialEq, Eq)]
pub struct VerificationRequestStatus {
    pub status: String,
    pub error: Option<String>,
    pub compilation_errors: Option<Vec<String>>,
}

/// A compiler whose released versions the queue keeps on record.
#[derive(Clone, Copy, Debug, PartialEq, Eq)]
pub enum Compiler {
    ZkSolc,
    Solc,
    ZkVyper,
    Vyper,
}

impl Compiler {
    /// Name under which this compiler's versions are recorded.
    pub open spec fn spec_name(self) -> Seq<char> {
        match self {
            Compiler::ZkSolc => "zksolc"@,
            Compiler::Solc => "solc"@,
            Compiler::ZkVyper => "zkvyper"@,
            Compiler::Vyper => "vyper"@,
        }
    }

    /// The recorded name of this compiler.
    pub fn name(&self) -> (s: &'static str)
        ensures
            s@ == self.spec_name(),
    {
        match self {
            Compiler::ZkSolc => "zksolc",
            Compiler::Solc => "solc",
            Compiler::ZkVyper => "zkvyper",
            Compiler::Vyper => "vyper",
        }
    }
}

/// Decision layer over the verification-queue rows.  The queue's SQL runs
/// outside the library; row values come in and decisions go out as plain
/// values.
#[derive(Clone, Copy, Debug, PartialEq, Eq)]
pub struct ContractVerificationDal {}

impl ContractVerificationDal {
    pub fn new() -> ContractVerificationDal {
        ContractVerificationDal {  }
    }

    /// Decides what a contract-info row means: the deployed bytecode,
    /// paired with the creation calldata when — and only when — the
    /// recorded creator is the contract deployer.  `calldata_hex` is the
    /// recorded calldata string: a `0x` prefix followed by hexadecimal
    /// digits.  A deployer row whose calldata is absent or malformed yields
    /// `None`, since the deployment cannot be reconstructed from it.
    pub fn get_contract_info_for_verification(
        &self,
        bytecode: Vec<u8>,
        creator: Option<AccountAddress>,
        calldata_hex: Option<Vec<u8>>,
    ) -> (r: Option<(Vec<u8>, DeployContractCalldata)>)
        ensures
            !spec_is_deployer(creator) ==> r == Some(
                (bytecode, DeployContractCalldata::Ignore),
            ),
            spec_is_deployer(creator) ==> match calldata_hex {
                Some(h) => {
                    if h@.len() >= 2 && spec_valid_hex(h@.skip(2)) {
                        &&& r matches Some(pair)
                        &&& pair.0 == bytecode
                        &&& pair.1 matches DeployContractCalldata::Deploy(v)
                        &&& v@ == spec_hex_decoded(h@.skip(2))
                    } else {
                        r is None
                    }
                },
                None => r is None,
            },
    {
        let is_deployer = match &creator {
            Some(a) => a.hi == 0 && a.lo == 0x8006,
            None => false,
        };
        if !is_deployer {
            return Some((bytecode, DeployContractCalldata::Ignore));
        }
        match calldata_hex {
            None => None,
            Some(h) => {
                if h.len() < 2 {
                    return None;
                }
                let mut digits: Vec<u8> = Vec::new();
                let mut i: usize = 2;
                while i < h.len()
                    invariant
                        2 <= i <= h@.len(),
                        digits@ == h@.subrange(2, i as int),
                    decreases h@.len() - i,
                {
                    digits.push(h[i]);
                    i = i + 1;
                }
                proof {
                    assert(digits@ =~= h@.skip(2));
                }
                match decode_hex(digits.as_slice()) {
                    Some(decoded) => Some((bytecode, DeployContractCalldata::Deploy(decoded))),
                    None => None,
                }
            },
        }
    }

    /// Assembles the reported status of a request from its row: the raw
    /// status and error pass through, and an empty recorded list of
    /// compilation errors reads as no compilation errors at all.
    pub fn get_verification_request_status(
        &self,
        status: String,
        error: Option<String>,
        compilation_errors: Option<Vec<String>>,
    ) -> (r: VerificationRequestStatus)
        ensures
            r.status == status,
            r.error == error,
            compilation_errors matches Some(list) ==> r.compilation_errors == (if list@.len()
                == 0 {
                None::<Vec<String>>
            } else {
                Some(list)
            }),
            compilation_errors is None ==> r.compilation_errors is None,
    {
        let reported_errors = match compilation_errors {
            None => None,
            Some(list) => {
                if list.len() == 0 {
                    None
                } else {
                    Some(list)
                }
            },
        };
        VerificationRequestStatus { status, error, compilation_errors: reported_errors }
    }

    /// A contract counts as verified exactly when the store holds at least
    /// one verification-info row for its address.
    pub fn is_contract_verified(&self, matching_rows: u64) -> (r: bool)
        ensures
            r == (matching_rows > 0),
    {
        matching_rows > 0
    }
}

} // verus!
