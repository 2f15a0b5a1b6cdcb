use vstd::prelude::*;

verus! {

/// The two network variants whose hint artifacts the service exposes.
/// The enumeration is closed: there is no third variant and no dynamic
/// registration.
#[derive(Debug, Clone, Copy, PartialEq, Eq, Structural)]
pub enum Chain {
    Signet,
    Bitcoin,
}

/// The fixed filename of a chain's hint file. The mapping is total and
/// fixed: two chains, two names.
pub open spec fn spec_hints_file_name(chain: Chain) -> Seq<char> {
    match chain {
        Chain::Signet => "signet.hints"@,
        Chain::Bitcoin => "bitcoin.hints"@,
    }
}

/// Returns the fixed filename for `chain`.
pub fn hints_file_name(chain: Chain) -> (r: &'static str)
    ensures
        r@ == spec_hints_file_name(chain),
{
    match chain {
        Chain::Signet => "signet.hints",
        Chain::Bitcoin => "bitcoin.hints",
    }
}

/// The path the stream handler opens for `chain`: the configured hints
/// directory, a separator, and the chain's fixed filename.
pub open spec fn spec_hints_file_path(dir: Seq<char>, chain: Chain) -> Seq<char> {
    dir + "/"@ + spec_hints_file_name(chain)
}

/// Computes `<dir>/<fixed filename for chain>`. The directory is the
/// process-wide configured value; this function never inspects or mutates
/// it, it only places the chain's filename inside it.
pub fn hints_file_path(dir: &str, chain: Chain) -> (r: String)
    ensures
        r@ == spec_hints_file_path(dir@, chain),
{
    let mut path = String::from_str(dir);
    path.append("/");
    path.append(hints_file_name(chain));
    path
}

/// Under one directory, distinct chains resolve to distinct paths: a
/// request for one chain's hints never opens the other chain's file.
pub proof fn lemma_distinct_chains_distinct_paths(dir: Seq<char>, c1: Chain, c2: Chain)
    requires
        c1 != c2,
    ensures
        spec_hints_file_path(dir, c1) != spec_hints_file_path(dir, c2),
{
    reveal_strlit("signet.hints");
    reveal_strlit("bitcoin.hints");
    assert(spec_hints_file_name(c1).len() != spec_hints_file_name(c2).len());
    assert(spec_hints_file_path(dir, c1).len() != spec_hints_file_path(dir, c2).len());
}

} // verus!
