//! Random, human-readable node names of bounded length.
use vstd::prelude::*;
use vstd::string::*;

verus! {

/// Node names hold fewer characters than this.
pub const NODE_NAME_MAX_LENGTH: usize = 32;

/// Whether `name` is short enough to serve as a node name.
pub open spec fn is_valid_node_name(name: Seq<char>) -> bool {
    name.len() < NODE_NAME_MAX_LENGTH
}

/// Whether `name` has the shape `<adjective>-<noun>-<dddd>`: at least one
/// character before the final `-` and the four decimal digits after it.
pub open spec fn is_numbered_name(name: Seq<char>) -> bool {
    &&& name.len() >= 8
    &&& name[name.len() - 5] == '-'
    &&& forall|i: int| name.len() - 4 <= i < name.len() ==> '0' <= #[trigger] name[i] <= '9'
}

/// `name` cut to fit a node name: its first `NODE_NAME_MAX_LENGTH - 1`
/// characters, or all of it when it is short enough already.
pub open spec fn cut_name(name: Seq<char>) -> Seq<char> {
    if is_valid_node_name(name) {
        name
    } else {
        name.take(NODE_NAME_MAX_LENGTH - 1)
    }
}

/// Relies on `names::Generator::with_naming(Name::Numbered)` and its
/// `Iterator::next`, which always yields `Some` name formatted as
/// `"{adjective}-{noun}-{number:04}"`, with non-empty words from the crate's
/// word lists and a number in `1..10000`. Which words and number is random.
#[verifier::external_body]
fn numbered_name_candidate() -> (r: String)
    ensures
        is_numbered_name(r@),
{
    names::Generator::with_naming(names::Name::Numbered).next().unwrap()
}

/// Keeps `candidate` when it is short enough to be a node name.
pub fn accept_node_name(candidate: String) -> (r: Option<String>)
    ensures
        r == (if is_valid_node_name(candidate@) {
            Some(candidate)
        } else {
            None::<String>
        }),
{
    if candidate.unicode_len() < NODE_NAME_MAX_LENGTH {
        Some(candidate)
    } else {
        None
    }
}

/// The first `NODE_NAME_MAX_LENGTH - 1` characters of `name`, or all of them.
pub fn truncate_node_name(name: &str) -> (r: String)
    ensures
        is_valid_node_name(r@),
        r@ == cut_name(name@),
{
    let len = name.unicode_len();
    let keep = if len < NODE_NAME_MAX_LENGTH { len } else { NODE_NAME_MAX_LENGTH - 1 };
    let r = String::from_str(name.substring_char(0, keep));
    proof {
        assert(r@ =~= name@.take(keep as int));
        if len < NODE_NAME_MAX_LENGTH {
            assert(name@.take(keep as int) =~= name@);
        }
    }
    r
}

/// Whether `name` is what node name generation can hand out: a drawn
/// numbered name, cut to fit (which leaves a name that fits unchanged).
pub open spec fn is_generated_node_name(name: Seq<char>) -> bool {
    exists|n: Seq<char>| is_numbered_name(n) && name == cut_name(n)
}

/// Generates a random node name of fewer than `NODE_NAME_MAX_LENGTH`
/// characters, drawing numbered names until one is short enough and handing
/// that one out whole.
///
/// Drawing stops after `u64::MAX` rejected candidates, far beyond anything
/// that occurs in practice; the last candidate is then cut to length.
pub fn generate_node_name() -> (r: String)
    ensures
        is_valid_node_name(r@),
        is_generated_node_name(r@),
{
    let mut attempts: u64 = 0;
    loop
        invariant
            attempts <= u64::MAX,
        decreases u64::MAX - attempts,
    {
        let candidate = numbered_name_candidate();
        let ghost drawn = candidate@;
        if attempts == u64::MAX {
            let r = truncate_node_name(candidate.as_str());
            assert(is_numbered_name(drawn) && r@ == cut_name(drawn));
            return r;
        }
        match accept_node_name(candidate) {
            Some(name) => {
                assert(is_numbered_name(drawn) && name@ == cut_name(drawn));
                return name;
            },
            None => {},
        }
        attempts = attempts + 1;
    }
}

} // verus!
