use vstd::prelude::*;

verus! {

/// The reserved separator between a container and the item inside it.
pub const SEPARATOR: char = '/';

/// A name split into the container that holds the item and the item itself.
#[derive(Clone, Debug, PartialEq, Eq)]
pub struct ItemAddress {
    pub container: String,
    pub leaf: String,
}

/// `i` is the position of the first separator in `s`.
pub open spec fn is_first_separator(s: Seq<char>, i: int) -> bool {
    &&& 0 <= i < s.len()
    &&& s[i] == SEPARATOR
    &&& forall|j: int| 0 <= j < i ==> s[j] != SEPARATOR
}

/// Where `s` first holds the separator, if anywhere.
pub open spec fn first_separator(s: Seq<char>) -> Option<int> {
    if exists|i: int| is_first_separator(s, i) {
        Some(choose|i: int| is_first_separator(s, i))
    } else {
        None
    }
}

/// The (container, leaf) pair that `raw` names when `hint` is the container
/// to use for a name without a separator. Only the first separator counts:
/// the rest of the name, further separators included, is the leaf.
pub open spec fn address_of(hint: Seq<char>, raw: Seq<char>) -> (Seq<char>, Seq<char>) {
    match first_separator(raw) {
        Some(i) => (raw.take(i), raw.skip(i + 1)),
        None => (hint, raw),
    }
}

impl ItemAddress {
    pub open spec fn view(&self) -> (Seq<char>, Seq<char>) {
        (self.container@, self.leaf@)
    }
}

proof fn lemma_first_separator_unique(s: Seq<char>, i: int, k: int)
    requires
        is_first_separator(s, i),
        is_first_separator(s, k),
    ensures
        i == k,
{
    if i < k {
        assert(s[i] != SEPARATOR);
    } else if k < i {
        assert(s[k] != SEPARATOR);
    }
}

proof fn lemma_first_separator_at(s: Seq<char>, i: int)
    requires
        is_first_separator(s, i),
    ensures
        first_separator(s) == Some(i),
{
    let k = choose|k: int| is_first_separator(s, k);
    lemma_first_separator_unique(s, i, k);
}

/// A name that holds the separator somewhere has a first one.
proof fn lemma_first_separator_exists(s: Seq<char>, j: int)
    requires
        0 <= j < s.len(),
        s[j] == SEPARATOR,
    ensures
        first_separator(s) is Some,
    decreases j,
{
    if forall|k: int| 0 <= k < j ==> s[k] != SEPARATOR {
        assert(is_first_separator(s, j));
    } else {
        let k = choose|k: int| 0 <= k < j && s[k] == SEPARATOR;
        lemma_first_separator_exists(s, k);
    }
}

/// The container hint is ignored whenever the raw name holds a separator:
/// two hints give the same address.
pub proof fn lemma_separator_overrides_hint(
    hint_a: Seq<char>,
    hint_b: Seq<char>,
    raw: Seq<char>,
)
    requires
        raw.contains(SEPARATOR),
    ensures
        address_of(hint_a, raw) == address_of(hint_b, raw),
        address_of(hint_a, raw).0 + seq![SEPARATOR] + address_of(hint_a, raw).1 == raw,
{
    let j = choose|j: int| 0 <= j < raw.len() && raw[j] == SEPARATOR;
    lemma_first_separator_exists(raw, j);
    let i = first_separator(raw).unwrap();
    assert(raw.take(i) + seq![SEPARATOR] + raw.skip(i + 1) =~= raw);
}

/// A raw name without a separator is addressed inside the hinted container,
/// unchanged.
pub proof fn lemma_hint_used_without_separator(hint: Seq<char>, raw: Seq<char>)
    requires
        !raw.contains(SEPARATOR),
    ensures
        address_of(hint, raw) == (hint, raw),
{
}

/// Resolves a human-supplied name into the container and the item to look up
/// there: `"Group/Camera"` names `Camera` inside `Group`, whatever the hint;
/// a name without a separator names an item of the hinted container.
pub fn resolve_address(container_hint: &str, raw_name: &str) -> (r: ItemAddress)
    ensures
        r@ == address_of(container_hint@, raw_name@),
{
    let n = raw_name.unicode_len();
    let mut i: usize = 0;
    while i < n
        invariant
            n == raw_name@.len(),
            i <= n,
            forall|j: int| 0 <= j < i ==> raw_name@[j] != SEPARATOR,
        decreases n - i,
    {
        if raw_name.get_char(i) == SEPARATOR {
            proof {
                lemma_first_separator_at(raw_name@, i as int);
            }
            let container = raw_name.substring_char(0, i);
            let leaf = raw_name.substring_char(i + 1, n);
            return ItemAddress { container: String::from_str(container), leaf: String::from_str(leaf) };
        }
        i = i + 1;
    }
    assert(first_separator(raw_name@) is None);
    ItemAddress { container: String::from_str(container_hint), leaf: String::from_str(raw_name) }
}

} // verus!
