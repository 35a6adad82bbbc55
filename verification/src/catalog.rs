//! The closed set of supported guest CPU identities.
//!
//! Thirteen fixed, case-sensitive names, each bound to one architectural
//! (family, model, stepping) triple. Several names alias the same triple:
//! revision names that do not change the reported signature. The set is
//! compiled in and closed; nothing is added, removed or changed at run time.

use vstd::prelude::*;
use crate::codec::cpu_sig;
use crate::codec::cpu_sig_spec;

verus! {

/// One of the thirteen supported guest CPU identities.
#[derive(Debug, Clone, PartialEq, Eq, Structural)]
pub enum CpuType {
    Epyc,
    EpycV1,
    EpycV2,
    EpycIBPB,
    EpycV3,
    EpycV4,
    EpycRome,
    EpycRomeV1,
    EpycRomeV2,
    EpycRomeV3,
    EpycMilan,
    EpycMilanV1,
    EpycMilanV2,
}

/// The one error of the catalog: a string handed to [`CpuType::parse`] that
/// is not one of the thirteen canonical names. It carries the offending
/// string for diagnostics.
#[derive(Debug, Clone, PartialEq)]
pub struct InvalidIdentityName {
    pub name: String,
}

impl CpuType {
    /// The canonical name of this identity, as a spec-level value.
    pub open spec fn spec_name(self) -> Seq<char> {
        match self {
            CpuType::Epyc => "EPYC"@,
            CpuType::EpycV1 => "EPYC-v1"@,
            CpuType::EpycV2 => "EPYC-v2"@,
            CpuType::EpycIBPB => "EPYC-IBPB"@,
            CpuType::EpycV3 => "EPYC-v3"@,
            CpuType::EpycV4 => "EPYC-v4"@,
            CpuType::EpycRome => "EPYC-Rome"@,
            CpuType::EpycRomeV1 => "EPYC-Rome-v1"@,
            CpuType::EpycRomeV2 => "EPYC-Rome-v2"@,
            CpuType::EpycRomeV3 => "EPYC-Rome-v3"@,
            CpuType::EpycMilan => "EPYC-Milan"@,
            CpuType::EpycMilanV1 => "EPYC-Milan-v1"@,
            CpuType::EpycMilanV2 => "EPYC-Milan-v2"@,
        }
    }

    /// The architectural family bound to this identity.
    pub open spec fn spec_family(self) -> i32 {
        match self {
            CpuType::Epyc | CpuType::EpycV1 | CpuType::EpycV2 | CpuType::EpycIBPB
                | CpuType::EpycV3 | CpuType::EpycV4 => 23,
            CpuType::EpycRome | CpuType::EpycRomeV1 | CpuType::EpycRomeV2
                | CpuType::EpycRomeV3 => 23,
            CpuType::EpycMilan | CpuType::EpycMilanV1 | CpuType::EpycMilanV2 => 25,
        }
    }

    /// The architectural model bound to this identity.
    pub open spec fn spec_model(self) -> i32 {
        match self {
            CpuType::Epyc | CpuType::EpycV1 | CpuType::EpycV2 | CpuType::EpycIBPB
                | CpuType::EpycV3 | CpuType::EpycV4 => 1,
            CpuType::EpycRome | CpuType::EpycRomeV1 | CpuType::EpycRomeV2
                | CpuType::EpycRomeV3 => 49,
            CpuType::EpycMilan | CpuType::EpycMilanV1 | CpuType::EpycMilanV2 => 1,
        }
    }

    /// The architectural stepping bound to this identity.
    pub open spec fn spec_stepping(self) -> i32 {
        match self {
            CpuType::Epyc | CpuType::EpycV1 | CpuType::EpycV2 | CpuType::EpycIBPB
                | CpuType::EpycV3 | CpuType::EpycV4 => 2,
            CpuType::EpycRome | CpuType::EpycRomeV1 | CpuType::EpycRomeV2
                | CpuType::EpycRomeV3 => 0,
            CpuType::EpycMilan | CpuType::EpycMilanV1 | CpuType::EpycMilanV2 => 1,
        }
    }

    /// The CPUID signature of this identity: the packed form of its bound
    /// triple.
    pub open spec fn spec_sig(self) -> u32 {
        cpu_sig_spec(self.spec_family(), self.spec_model(), self.spec_stepping())
    }

    /// The 32-bit CPUID signature this identity reports: its bound triple,
    /// packed. Total; the result depends on the identity alone.
    pub fn sig(&self) -> (r: u32)
        ensures
            r == self.spec_sig(),
    {
        match self {
            CpuType::Epyc => cpu_sig(23, 1, 2),
            CpuType::EpycV1 => cpu_sig(23, 1, 2),
            CpuType::EpycV2 => cpu_sig(23, 1, 2),
            CpuType::EpycIBPB => cpu_sig(23, 1, 2),
            CpuType::EpycV3 => cpu_sig(23, 1, 2),
            CpuType::EpycV4 => cpu_sig(23, 1, 2),
            CpuType::EpycRome => cpu_sig(23, 49, 0),
            CpuType::EpycRomeV1 => cpu_sig(23, 49, 0),
            CpuType::EpycRomeV2 => cpu_sig(23, 49, 0),
            CpuType::EpycRomeV3 => cpu_sig(23, 49, 0),
            CpuType::EpycMilan => cpu_sig(25, 1, 1),
            CpuType::EpycMilanV1 => cpu_sig(25, 1, 1),
            CpuType::EpycMilanV2 => cpu_sig(25, 1, 1),
        }
    }

    /// The canonical name of this identity. Total; returns exactly the name
    /// [`CpuType::parse`] accepts for this identity.
    pub fn display(&self) -> (r: String)
        ensures
            r@ == self.spec_name(),
    {
        match self {
            CpuType::Epyc => "EPYC".to_owned(),
            CpuType::EpycV1 => "EPYC-v1".to_owned(),
            CpuType::EpycV2 => "EPYC-v2".to_owned(),
            CpuType::EpycIBPB => "EPYC-IBPB".to_owned(),
            CpuType::EpycV3 => "EPYC-v3".to_owned(),
            CpuType::EpycV4 => "EPYC-v4".to_owned(),
            CpuType::EpycRome => "EPYC-Rome".to_owned(),
            CpuType::EpycRomeV1 => "EPYC-Rome-v1".to_owned(),
            CpuType::EpycRomeV2 => "EPYC-Rome-v2".to_owned(),
            CpuType::EpycRomeV3 => "EPYC-Rome-v3".to_owned(),
            CpuType::EpycMilan => "EPYC-Milan".to_owned(),
            CpuType::EpycMilanV1 => "EPYC-Milan-v1".to_owned(),
            CpuType::EpycMilanV2 => "EPYC-Milan-v2".to_owned(),
        }
    }

    /// The identity a string resolves to, as a spec-level value: `Some`
    /// exactly when the string is one of the thirteen canonical names.
    pub open spec fn spec_parse(s: Seq<char>) -> Option<CpuType> {
        if s == "EPYC"@ {
            Some(CpuType::Epyc)
        } else if s == "EPYC-v1"@ {
            Some(CpuType::EpycV1)
        } else if s == "EPYC-v2"@ {
            Some(CpuType::EpycV2)
        } else if s == "EPYC-IBPB"@ {
            Some(CpuType::EpycIBPB)
        } else if s == "EPYC-v3"@ {
            Some(CpuType::EpycV3)
        } else if s == "EPYC-v4"@ {
            Some(CpuType::EpycV4)
        } else if s == "EPYC-Rome"@ {
            Some(CpuType::EpycRome)
        } else if s == "EPYC-Rome-v1"@ {
            Some(CpuType::EpycRomeV1)
        } else if s == "EPYC-Rome-v2"@ {
            Some(CpuType::EpycRomeV2)
        } else if s == "EPYC-Rome-v3"@ {
            Some(CpuType::EpycRomeV3)
        } else if s == "EPYC-Milan"@ {
            Some(CpuType::EpycMilan)
        } else if s == "EPYC-Milan-v1"@ {
            Some(CpuType::EpycMilanV1)
        } else if s == "EPYC-Milan-v2"@ {
            Some(CpuType::EpycMilanV2)
        } else {
            None
        }
    }

    /// Resolve a canonical name to its identity: an exact, case-sensitive
    /// match against the thirteen names, with no trimming and no fuzzy
    /// matching. Succeeds exactly on the thirteen canonical names; any other
    /// string is returned inside [`InvalidIdentityName`].
    pub fn parse(s: &str) -> (r: Result<CpuType, InvalidIdentityName>)
        ensures
            match r {
                Ok(c) => c.spec_name() == s@ && CpuType::spec_parse(s@) == Some(c),
                Err(e) => e.name@ == s@ && CpuType::spec_parse(s@) is None,
            },
    {
        let name = s.to_owned();
        if name == "EPYC".to_owned() {
            Ok(CpuType::Epyc)
        } else if name == "EPYC-v1".to_owned() {
            Ok(CpuType::EpycV1)
        } else if name == "EPYC-v2".to_owned() {
            Ok(CpuType::EpycV2)
        } else if name == "EPYC-IBPB".to_owned() {
            Ok(CpuType::EpycIBPB)
        } else if name == "EPYC-v3".to_owned() {
            Ok(CpuType::EpycV3)
        } else if name == "EPYC-v4".to_owned() {
            Ok(CpuType::EpycV4)
        } else if name == "EPYC-Rome".to_owned() {
            Ok(CpuType::EpycRome)
        } else if name == "EPYC-Rome-v1".to_owned() {
            Ok(CpuType::EpycRomeV1)
        } else if name == "EPYC-Rome-v2".to_owned() {
            Ok(CpuType::EpycRomeV2)
        } else if name == "EPYC-Rome-v3".to_owned() {
            Ok(CpuType::EpycRomeV3)
        } else if name == "EPYC-Milan".to_owned() {
            Ok(CpuType::EpycMilan)
        } else if name == "EPYC-Milan-v1".to_owned() {
            Ok(CpuType::EpycMilanV1)
        } else if name == "EPYC-Milan-v2".to_owned() {
            Ok(CpuType::EpycMilanV2)
        } else {
            Err(InvalidIdentityName { name })
        }
    }
}

/// No two identities share a canonical name. The names are told apart by
/// their lengths and, within each group of a common length, by one
/// distinguishing character.
proof fn lemma_names_pairwise_distinct()
    ensures
        forall|a: CpuType, b: CpuType|
            #![trigger a.spec_name(), b.spec_name()]
            a != b ==> a.spec_name() != b.spec_name(),
{
    reveal_strlit("EPYC");
    reveal_strlit("EPYC-v1");
    reveal_strlit("EPYC-v2");
    reveal_strlit("EPYC-IBPB");
    reveal_strlit("EPYC-v3");
    reveal_strlit("EPYC-v4");
    reveal_strlit("EPYC-Rome");
    reveal_strlit("EPYC-Rome-v1");
    reveal_strlit("EPYC-Rome-v2");
    reveal_strlit("EPYC-Rome-v3");
    reveal_strlit("EPYC-Milan");
    reveal_strlit("EPYC-Milan-v1");
    reveal_strlit("EPYC-Milan-v2");
    assert("EPYC"@.len() == 4);
    assert("EPYC-v1"@.len() == 7);
    assert("EPYC-v2"@.len() == 7);
    assert("EPYC-IBPB"@.len() == 9);
    assert("EPYC-v3"@.len() == 7);
    assert("EPYC-v4"@.len() == 7);
    assert("EPYC-Rome"@.len() == 9);
    assert("EPYC-Rome-v1"@.len() == 12);
    assert("EPYC-Rome-v2"@.len() == 12);
    assert("EPYC-Rome-v3"@.len() == 12);
    assert("EPYC-Milan"@.len() == 10);
    assert("EPYC-Milan-v1"@.len() == 13);
    assert("EPYC-Milan-v2"@.len() == 13);
    assert("EPYC-v1"@[6] == '1');
    assert("EPYC-v2"@[6] == '2');
    assert("EPYC-v3"@[6] == '3');
    assert("EPYC-v4"@[6] == '4');
    assert("EPYC-IBPB"@[5] == 'I');
    assert("EPYC-Rome"@[5] == 'R');
    assert("EPYC-Rome-v1"@[11] == '1');
    assert("EPYC-Rome-v2"@[11] == '2');
    assert("EPYC-Rome-v3"@[11] == '3');
    assert("EPYC-Milan-v1"@[12] == '1');
    assert("EPYC-Milan-v2"@[12] == '2');
}

/// Each identity's canonical name appears once in the catalog, so a name
/// determines its identity: a parse result whose name matches the input is
/// the one identity bearing that name.
pub proof fn lemma_name_injective(a: CpuType, b: CpuType)
    requires
        a.spec_name() == b.spec_name(),
    ensures
        a == b,
{
    lemma_names_pairwise_distinct();
}

/// Round-trip law: for every identity, its canonical name parses back to
/// exactly that identity. Since [`CpuType::display`] returns
/// `self.spec_name()` exactly, `display` of `parse`'s result on a canonical
/// name is that name unchanged.
pub proof fn lemma_round_trip(c: CpuType)
    ensures
        CpuType::spec_parse(c.spec_name()) == Some(c),
{
    lemma_names_pairwise_distinct();
    assert(CpuType::Epyc.spec_name() == "EPYC"@);
    assert(CpuType::EpycV1.spec_name() == "EPYC-v1"@);
    assert(CpuType::EpycV2.spec_name() == "EPYC-v2"@);
    assert(CpuType::EpycIBPB.spec_name() == "EPYC-IBPB"@);
    assert(CpuType::EpycV3.spec_name() == "EPYC-v3"@);
    assert(CpuType::EpycV4.spec_name() == "EPYC-v4"@);
    assert(CpuType::EpycRome.spec_name() == "EPYC-Rome"@);
    assert(CpuType::EpycRomeV1.spec_name() == "EPYC-Rome-v1"@);
    assert(CpuType::EpycRomeV2.spec_name() == "EPYC-Rome-v2"@);
    assert(CpuType::EpycRomeV3.spec_name() == "EPYC-Rome-v3"@);
    assert(CpuType::EpycMilan.spec_name() == "EPYC-Milan"@);
    assert(CpuType::EpycMilanV1.spec_name() == "EPYC-Milan-v1"@);
    assert(CpuType::EpycMilanV2.spec_name() == "EPYC-Milan-v2"@);
}

/// Closed-domain law: parsing fails exactly on the strings that are no
/// identity's canonical name. With the contract of [`CpuType::parse`], an
/// error comes back if and only if the input lies outside the
/// thirteen-name set.
pub proof fn lemma_closed_domain(s: Seq<char>)
    ensures
        (CpuType::spec_parse(s) is None) <==> (forall|c: CpuType| c.spec_name() != s),
{
    assert(CpuType::Epyc.spec_name() == "EPYC"@);
    assert(CpuType::EpycV1.spec_name() == "EPYC-v1"@);
    assert(CpuType::EpycV2.spec_name() == "EPYC-v2"@);
    assert(CpuType::EpycIBPB.spec_name() == "EPYC-IBPB"@);
    assert(CpuType::EpycV3.spec_name() == "EPYC-v3"@);
    assert(CpuType::EpycV4.spec_name() == "EPYC-v4"@);
    assert(CpuType::EpycRome.spec_name() == "EPYC-Rome"@);
    assert(CpuType::EpycRomeV1.spec_name() == "EPYC-Rome-v1"@);
    assert(CpuType::EpycRomeV2.spec_name() == "EPYC-Rome-v2"@);
    assert(CpuType::EpycRomeV3.spec_name() == "EPYC-Rome-v3"@);
    assert(CpuType::EpycMilan.spec_name() == "EPYC-Milan"@);
    assert(CpuType::EpycMilanV1.spec_name() == "EPYC-Milan-v1"@);
    assert(CpuType::EpycMilanV2.spec_name() == "EPYC-Milan-v2"@);
}

/// Alias-consistency law, in its general form: the signature is a function
/// of the bound triple alone, so identities that share a triple report the
/// same signature.
pub proof fn lemma_signature_depends_only_on_triple(a: CpuType, b: CpuType)
    requires
        a.spec_family() == b.spec_family(),
        a.spec_model() == b.spec_model(),
        a.spec_stepping() == b.spec_stepping(),
    ensures
        a.spec_sig() == b.spec_sig(),
{
}

/// Alias-consistency law, spelled out for the three alias groups of the
/// catalog: every alias of a base identity reports the base identity's
/// signature.
pub proof fn lemma_alias_groups()
    ensures
        CpuType::EpycV1.spec_sig() == CpuType::Epyc.spec_sig(),
        CpuType::EpycV2.spec_sig() == CpuType::Epyc.spec_sig(),
        CpuType::EpycIBPB.spec_sig() == CpuType::Epyc.spec_sig(),
        CpuType::EpycV3.spec_sig() == CpuType::Epyc.spec_sig(),
        CpuType::EpycV4.spec_sig() == CpuType::Epyc.spec_sig(),
        CpuType::EpycRomeV1.spec_sig() == CpuType::EpycRome.spec_sig(),
        CpuType::EpycRomeV2.spec_sig() == CpuType::EpycRome.spec_sig(),
        CpuType::EpycRomeV3.spec_sig() == CpuType::EpycRome.spec_sig(),
        CpuType::EpycMilanV1.spec_sig() == CpuType::EpycMilan.spec_sig(),
        CpuType::EpycMilanV2.spec_sig() == CpuType::EpycMilan.spec_sig(),
{
}

/// The exact signature of each identity, by alias group: the worked-out
/// packed values of the three bound triples.
pub proof fn lemma_signature_values()
    ensures
        CpuType::Epyc.spec_sig() == 0x00800F12u32,
        CpuType::EpycRome.spec_sig() == 0x00830F10u32,
        CpuType::EpycMilan.spec_sig() == 0x00A00F11u32,
{
    crate::codec::lemma_cpu_sig_values();
}

} // verus!
