//! Local names for symbols of external references when their entities are
//! copied into the host drawing.

use vstd::prelude::*;
use vstd::set_lib::{set_int_range, lemma_int_range, lemma_len_subset, lemma_map_size};
use crate::text::{upper_seq, upper_char, char_at, char_count, char_to_upper, decimal, digit_char,
    decimal_string, lemma_decimal_digits, lemma_decimal_injective, push_char, to_ascii_uppercase, str_eq,
    eq_ci, eq_ignore_ascii_case};
use crate::document::CadDocument;
use crate::objects::dictionary::{Dictionary, ObjectType};
use crate::tables::{Layer, LineType, TableRecord, record_names};
use crate::types::Handle;

verus! {

broadcast use vstd::std_specs::hash::group_hash_axioms;

/// Whether `a` comes before `b` in lexicographic order of code points, from position `i` on.
pub open spec fn lex_lt_from(a: Seq<char>, b: Seq<char>, i: int) -> bool
    decreases a.len() - i,
{
    if i < 0 || i >= a.len() {
        0 <= i < b.len()
    } else if i >= b.len() {
        false
    } else if a[i] != b[i] {
        (a[i] as u32) < (b[i] as u32)
    } else {
        lex_lt_from(a, b, i + 1)
    }
}

/// Order of names by their ASCII upper case, as strings compare.
pub open spec fn key_lt(a: Seq<char>, b: Seq<char>) -> bool {
    lex_lt_from(upper_seq(a), upper_seq(b), 0)
}

/// Whether `a` sorts before `b` by ASCII upper case.
fn upper_lt(a: &str, b: &str) -> (r: bool)
    ensures
        r == key_lt(a@, b@),
{
    let n = char_count(a);
    let m = char_count(b);
    let ghost ua = upper_seq(a@);
    let ghost ub = upper_seq(b@);
    let mut i: usize = 0;
    while i < n && i < m
        invariant
            n == a@.len(),
            m == b@.len(),
            ua == upper_seq(a@),
            ub == upper_seq(b@),
            i <= n,
            i <= m,
            key_lt(a@, b@) == lex_lt_from(ua, ub, i as int),
        decreases n - i,
    {
        let ca = char_to_upper(char_at(a, i));
        let cb = char_to_upper(char_at(b, i));
        if ca != cb {
            return (ca as u32) < (cb as u32);
        }
        i += 1;
    }
    i >= n && i < m
}

/// Position before which a name is inserted into a sorted list: the first
/// position at or after `k` whose name sorts strictly after it.
pub open spec fn insert_position_from(s: Seq<Seq<char>>, x: Seq<char>, k: int) -> int
    decreases s.len() - k,
{
    if k < 0 || k >= s.len() {
        s.len() as int
    } else if key_lt(x, s[k]) {
        k
    } else {
        insert_position_from(s, x, k + 1)
    }
}

/// A sorted list with one more name, placed after every name that does not sort after it.
pub open spec fn insert_sorted(s: Seq<Seq<char>>, x: Seq<char>) -> Seq<Seq<char>> {
    let p = insert_position_from(s, x, 0);
    s.take(p).push(x) + s.skip(p)
}

/// Names in stable order of their ASCII upper case.
pub open spec fn sort_by_upper(names: Seq<Seq<char>>) -> Seq<Seq<char>>
    decreases names.len(),
{
    if names.len() == 0 {
        names
    } else {
        insert_sorted(sort_by_upper(names.drop_last()), names.last())
    }
}

/// Model of a list of strings.
pub open spec fn strings_model(v: Seq<String>) -> Seq<Seq<char>> {
    v.map_values(|s: String| s@)
}

/// What `insert_position_from` finds lies between `k` and the length.
pub proof fn lemma_insert_position(s: Seq<Seq<char>>, x: Seq<char>, k: int)
    requires
        0 <= k <= s.len(),
    ensures
        k <= insert_position_from(s, x, k) <= s.len(),
    decreases s.len() - k,
{
    if k < s.len() && !key_lt(x, s[k]) {
        lemma_insert_position(s, x, k + 1);
    }
}

/// The names sorted stably by ASCII upper case.
fn sort_names(names: &Vec<String>) -> (r: Vec<String>)
    ensures
        strings_model(r@) == sort_by_upper(strings_model(names@)),
{
    let ghost all = strings_model(names@);
    let mut sorted: Vec<String> = Vec::new();
    let mut i: usize = 0;
    while i < names.len()
        invariant
            i <= names@.len(),
            all == strings_model(names@),
            strings_model(sorted@) == sort_by_upper(all.take(i as int)),
        decreases names@.len() - i,
    {
        let x = names[i].clone();
        let ghost s = strings_model(sorted@);
        let mut p: usize = 0;
        while p < sorted.len() && !upper_lt(x.as_str(), sorted[p].as_str())
            invariant
                s == strings_model(sorted@),
                p <= sorted@.len(),
                insert_position_from(s, x@, 0) == insert_position_from(s, x@, p as int),
            decreases sorted@.len() - p,
        {
            p += 1;
        }
        proof {
            lemma_insert_position(s, x@, p as int);
            assert(all.take(i + 1).drop_last() =~= all.take(i as int));
            assert(all.take(i + 1).last() == x@);
        }
        sorted.insert(p, x);
        proof {
            assert(strings_model(sorted@) =~= s.take(p as int).push(x@) + s.skip(p as int));
        }
        i += 1;
    }
    assert(all.take(names@.len() as int) =~= all);
    sorted
}

/// Position of the last `|` in the first `n` characters, or -1.
pub open spec fn last_bar_before(s: Seq<char>, n: int) -> int
    decreases n,
{
    if n <= 0 {
        -1
    } else if s[n - 1] == '|' {
        n - 1
    } else {
        last_bar_before(s, n - 1)
    }
}

/// Position of the last `|` of a name, or -1 when it has none.
pub open spec fn last_bar(s: Seq<char>) -> int {
    last_bar_before(s, s.len() as int)
}

/// What `last_bar_before` finds.
pub proof fn lemma_last_bar_before(s: Seq<char>, n: int)
    requires
        0 <= n <= s.len(),
    ensures
        -1 <= last_bar_before(s, n) < n,
        last_bar_before(s, n) >= 0 ==> s[last_bar_before(s, n)] == '|',
        forall|j: int| last_bar_before(s, n) < j < n ==> #[trigger] s[j] != '|',
    decreases n,
{
    if n > 0 && s[n - 1] != '|' {
        lemma_last_bar_before(s, n - 1);
    }
}

/// Position of the last `|` of a string.
pub(crate) fn last_bar_index(s: &str) -> (r: Option<usize>)
    ensures
        match r {
            Some(i) => last_bar(s@) == i as int,
            None => last_bar(s@) == -1,
        },
{
    let n = char_count(s);
    let mut k: usize = n;
    while k > 0
        invariant
            n == s@.len(),
            k <= n,
            last_bar(s@) == last_bar_before(s@, k as int),
        decreases k,
    {
        if char_at(s, k - 1) == '|' {
            return Some(k - 1);
        }
        k -= 1;
    }
    None
}

/// The external-reference prefix and the local part of a symbol name, split at
/// its last `|`; none for a local name or a name nested more than one level.
pub open spec fn source_parts(source: Seq<char>) -> Option<(Seq<char>, Seq<char>)> {
    let i = last_bar(source);
    if i < 0 {
        None
    } else if last_bar(source.subrange(0, i)) >= 0 {
        None
    } else {
        Some((source.subrange(0, i), source.subrange(i + 1, source.len() as int)))
    }
}

/// Name of a bound symbol: `prefix$index$local`.
pub open spec fn bound_name(prefix: Seq<char>, index: nat, local: Seq<char>) -> Seq<char> {
    prefix + seq!['$'] + decimal(index) + seq!['$'] + local
}

/// First index, counting from `n`, whose bound name (ASCII upper case) is not in `used`.
pub open spec fn free_index_from(used: Seq<Seq<char>>, prefix: Seq<char>, local: Seq<char>, n: nat) -> nat
    decreases used.len() - n,
{
    if n >= used.len() || !used.contains(upper_seq(bound_name(prefix, n, local))) {
        n
    } else {
        free_index_from(used, prefix, local, n + 1)
    }
}

/// ASCII upper case distributes over concatenation.
pub proof fn lemma_upper_add(a: Seq<char>, b: Seq<char>)
    ensures
        upper_seq(a + b) == upper_seq(a) + upper_seq(b),
{
    assert(upper_seq(a + b) =~= upper_seq(a) + upper_seq(b));
}

/// Upper case of a bound name keeps its index digits and separators.
pub proof fn lemma_upper_bound_name(prefix: Seq<char>, index: nat, local: Seq<char>)
    ensures
        upper_seq(bound_name(prefix, index, local))
            == upper_seq(prefix) + seq!['$'] + decimal(index) + seq!['$'] + upper_seq(local),
{
    lemma_decimal_digits(index);
    let d = decimal(index);
    assert(upper_seq(d) =~= d);
    assert(upper_seq(seq!['$']) =~= seq!['$']);
    lemma_upper_add(prefix + seq!['$'] + d + seq!['$'], local);
    lemma_upper_add(prefix + seq!['$'] + d, seq!['$']);
    lemma_upper_add(prefix + seq!['$'], d);
    lemma_upper_add(prefix, seq!['$']);
}

/// Different indices give bound names that differ even with ASCII case ignored.
pub proof fn lemma_bound_name_injective(prefix: Seq<char>, local: Seq<char>, n: nat, m: nat)
    requires
        upper_seq(bound_name(prefix, n, local)) == upper_seq(bound_name(prefix, m, local)),
    ensures
        n == m,
{
    lemma_upper_bound_name(prefix, n, local);
    lemma_upper_bound_name(prefix, m, local);
    lemma_decimal_digits(n);
    lemma_decimal_digits(m);
    let up = upper_seq(prefix) + seq!['$'];
    let ul = seq!['$'] + upper_seq(local);
    let a = up + decimal(n) + ul;
    let b = up + decimal(m) + ul;
    assert(upper_seq(bound_name(prefix, n, local)) =~= a);
    assert(upper_seq(bound_name(prefix, m, local)) =~= b);
    let dn = decimal(n);
    let dm = decimal(m);
    let k: int = up.len() as int;
    if dn.len() < dm.len() {
        assert(a[k + dn.len()] == '$');
        assert(b[k + dn.len()] == dm[dn.len() as int]);
        assert(48 <= (dm[dn.len() as int] as u32) <= 57);
    } else if dm.len() < dn.len() {
        assert(b[k + dm.len()] == '$');
        assert(a[k + dm.len()] == dn[dm.len() as int]);
        assert(48 <= (dn[dm.len() as int] as u32) <= 57);
    } else {
        assert forall|j: int| 0 <= j < dn.len() implies dn[j] == dm[j] by {
            assert(a[k + j] == dn[j]);
            assert(b[k + j] == dm[j]);
        }
        assert(dn =~= dm);
        lemma_decimal_injective(n, m);
    }
}

/// Pigeonhole: when the bound names of the first `k` indices are all used,
/// `used` holds at least `k` names.
pub proof fn lemma_used_bound(used: Seq<Seq<char>>, prefix: Seq<char>, local: Seq<char>, k: nat)
    requires
        forall|m: nat| m < k ==> used.contains(#[trigger] upper_seq(bound_name(prefix, m, local))),
    ensures
        k <= used.len(),
{
    let f = |i: int| upper_seq(bound_name(prefix, i as nat, local));
    let x = set_int_range(0, k as int);
    let y = x.map(f);
    lemma_int_range(0, k as int);
    assert forall|i: int, j: int| x.contains(i) && x.contains(j) && #[trigger] f(i) == #[trigger] f(j) implies i == j by {
        lemma_bound_name_injective(prefix, local, i as nat, j as nat);
    }
    lemma_map_size(x, y, f);
    assert forall|e: Seq<char>| y.contains(e) implies used.to_set().contains(e) by {
        let i = choose|i: int| x.contains(i) && f(i) == e;
        assert(used.contains(upper_seq(bound_name(prefix, i as nat, local))));
    }
    lemma_len_subset(y, used.to_set());
    used.lemma_cardinality_of_set();
}

/// The index `free_index_from` gives has a bound name that is not in `used`,
/// and every index before it, from `n` on, has one that is.
pub proof fn lemma_free_index(used: Seq<Seq<char>>, prefix: Seq<char>, local: Seq<char>, n: nat)
    requires
        forall|m: nat| m < n ==> used.contains(#[trigger] upper_seq(bound_name(prefix, m, local))),
    ensures
        !used.contains(upper_seq(bound_name(prefix, free_index_from(used, prefix, local, n), local))),
        n <= free_index_from(used, prefix, local, n) <= used.len(),
        forall|m: nat| m < free_index_from(used, prefix, local, n)
            ==> used.contains(#[trigger] upper_seq(bound_name(prefix, m, local))),
    decreases used.len() - n,
{
    lemma_used_bound(used, prefix, local, n);
    if n < used.len() && used.contains(upper_seq(bound_name(prefix, n, local))) {
        lemma_free_index(used, prefix, local, n + 1);
    } else if n >= used.len() && used.contains(upper_seq(bound_name(prefix, n, local))) {
        lemma_used_bound(used, prefix, local, n + 1);
    }
}

/// Model of a list of name pairs.
pub open spec fn pairs_model(v: Seq<(String, String)>) -> Seq<(Seq<char>, Seq<char>)> {
    v.map_values(|p: (String, String)| (p.0@, p.1@))
}

/// Index of the first pair at or after `k` with the given key (the length when none).
pub open spec fn pair_index_from(m: Seq<(Seq<char>, Seq<char>)>, key: Seq<char>, k: int) -> int
    decreases m.len() - k,
{
    if k < 0 || k >= m.len() {
        m.len() as int
    } else if m[k].0 == key {
        k
    } else {
        pair_index_from(m, key, k + 1)
    }
}

/// Value that a name map gives for a key.
pub open spec fn pair_get(m: Seq<(Seq<char>, Seq<char>)>, key: Seq<char>) -> Option<Seq<char>> {
    let k = pair_index_from(m, key, 0);
    if k < m.len() {
        Some(m[k].1)
    } else {
        None
    }
}

/// A name map after setting a key: its pair is updated, or a pair is appended.
pub open spec fn pair_with(m: Seq<(Seq<char>, Seq<char>)>, key: Seq<char>, value: Seq<char>) -> Seq<(Seq<char>, Seq<char>)> {
    let k = pair_index_from(m, key, 0);
    if k < m.len() {
        m.update(k, (key, value))
    } else {
        m.push((key, value))
    }
}

/// What `pair_index_from` finds.
pub proof fn lemma_pair_index_from(m: Seq<(Seq<char>, Seq<char>)>, key: Seq<char>, k: int)
    requires
        0 <= k <= m.len(),
    ensures
        k <= pair_index_from(m, key, k) <= m.len(),
        pair_index_from(m, key, k) < m.len() ==> m[pair_index_from(m, key, k)].0 == key,
        forall|j: int| k <= j < pair_index_from(m, key, k) ==> #[trigger] m[j].0 != key,
    decreases m.len() - k,
{
    if k < m.len() && m[k].0 != key {
        lemma_pair_index_from(m, key, k + 1);
    }
}

/// Position of the pair with the given key.
fn pair_position(m: &Vec<(String, String)>, key: &str) -> (i: usize)
    ensures
        i == pair_index_from(pairs_model(m@), key@, 0),
        i <= m@.len(),
{
    let ghost pm = pairs_model(m@);
    let mut i: usize = 0;
    while i < m.len()
        invariant
            pm == pairs_model(m@),
            i <= m@.len(),
            pair_index_from(pm, key@, 0) == pair_index_from(pm, key@, i as int),
        decreases m@.len() - i,
    {
        if str_eq(m[i].0.as_str(), key) {
            return i;
        }
        i += 1;
    }
    i
}

/// Value of the pair with the given key.
pub(crate) fn pair_lookup<'a>(m: &'a Vec<(String, String)>, key: &str) -> (r: Option<&'a String>)
    ensures
        match r {
            Some(v) => pair_get(pairs_model(m@), key@) == Some(v@),
            None => pair_get(pairs_model(m@), key@) is None,
        },
{
    let i = pair_position(m, key);
    if i < m.len() {
        Some(&m[i].1)
    } else {
        None
    }
}

/// Set the value of a key.
fn pair_insert(m: &mut Vec<(String, String)>, key: String, value: String)
    ensures
        pairs_model(final(m)@) == pair_with(pairs_model(old(m)@), key@, value@),
{
    let ghost pm = pairs_model(m@);
    let ghost k = key@;
    let ghost v = value@;
    let i = pair_position(m, key.as_str());
    if i < m.len() {
        m.set(i, (key, value));
        assert(pairs_model(m@) =~= pm.update(i as int, (k, v)));
    } else {
        m.push((key, value));
        assert(pairs_model(m@) =~= pm.push((k, v)));
    }
}

/// Whether a list of strings holds the given one.
fn contains_string(v: &Vec<String>, s: &str) -> (r: bool)
    ensures
        r == strings_model(v@).contains(s@),
{
    let ghost sm = strings_model(v@);
    let mut i: usize = 0;
    while i < v.len()
        invariant
            sm == strings_model(v@),
            i <= v@.len(),
            forall|j: int| 0 <= j < i ==> sm[j] != s@,
        decreases v@.len() - i,
    {
        if str_eq(v[i].as_str(), s) {
            assert(sm[i as int] == s@);
            return true;
        }
        i += 1;
    }
    false
}

/// How symbols of an external reference are named in the host drawing.
#[derive(Clone, Copy, Debug, PartialEq, Eq, Structural)]
pub enum NestedCopyMode {
    /// A symbol takes the local part of its name.
    Insert,
    /// A symbol keeps its reference name as `prefix$index$local`, with the
    /// smallest index that no other symbol uses.
    Bind,
}

impl Default for NestedCopyMode {
    fn default() -> (r: Self)
        ensures
            r == NestedCopyMode::Insert,
    {
        NestedCopyMode::Insert
    }
}

/// Names in use (ASCII upper case) and the name map built so far.
pub struct DestinationState {
    pub used: Seq<Seq<char>>,
    pub map: Seq<(Seq<char>, Seq<char>)>,
}

/// Local name of a symbol with the given prefix and local part.
pub open spec fn destination_for(used: Seq<Seq<char>>, prefix: Seq<char>, local: Seq<char>, mode: NestedCopyMode) -> Seq<char> {
    match mode {
        NestedCopyMode::Insert => local,
        NestedCopyMode::Bind => bound_name(prefix, free_index_from(used, prefix, local, 0), local),
    }
}

/// One source name processed: a name of a directly attached reference gets a
/// destination, which is then in use; other names are skipped.
pub open spec fn destination_step(st: DestinationState, source: Seq<char>, mode: NestedCopyMode) -> DestinationState {
    match source_parts(source) {
        Some((prefix, local)) => {
            let d = destination_for(st.used, prefix, local, mode);
            DestinationState { used: st.used.push(upper_seq(d)), map: pair_with(st.map, upper_seq(source), d) }
        },
        None => st,
    }
}

/// The source names processed in order.
pub open spec fn destination_fold(sources: Seq<Seq<char>>, mode: NestedCopyMode, st: DestinationState) -> DestinationState
    decreases sources.len(),
{
    if sources.len() == 0 {
        st
    } else {
        destination_step(destination_fold(sources.drop_last(), mode, st), sources.last(), mode)
    }
}

/// Upper case of each name.
pub open spec fn upper_all(names: Seq<Seq<char>>) -> Seq<Seq<char>> {
    names.map_values(|n: Seq<char>| upper_seq(n))
}

/// Destination of every reference symbol, keyed by its source name in ASCII
/// upper case. Names are processed in order of their upper case; every
/// existing name, and every destination given, is in use.
pub open spec fn destinations_spec(names: Seq<Seq<char>>, mode: NestedCopyMode) -> Seq<(Seq<char>, Seq<char>)> {
    let sorted = sort_by_upper(names);
    destination_fold(sorted, mode, DestinationState { used: upper_all(sorted), map: Seq::empty() }).map
}

/// `prefix$index$local` for the smallest index whose name is not in use.
fn free_bound_name(used: &Vec<String>, prefix: &str, local: &str) -> (r: String)
    ensures
        r@ == bound_name(prefix@, free_index_from(strings_model(used@), prefix@, local@, 0), local@),
{
    let ghost u = strings_model(used@);
    let used_len = used.len();
    let mut index: usize = 0;
    loop
        invariant
            u == strings_model(used@),
            used_len == u.len(),
            forall|m: nat| m < index ==> u.contains(#[trigger] upper_seq(bound_name(prefix@, m, local@))),
            free_index_from(u, prefix@, local@, 0) == free_index_from(u, prefix@, local@, index as nat),
            index <= u.len(),
        decreases u.len() - index,
    {
        let mut name = prefix.to_owned();
        push_char(&mut name, '$');
        let digits = decimal_string(index);
        name.append(digits.as_str());
        push_char(&mut name, '$');
        name.append(local);
        assert(name@ =~= bound_name(prefix@, index as nat, local@));
        let key = to_ascii_uppercase(name.as_str());
        if !contains_string(used, key.as_str()) {
            return name;
        }
        proof {
            lemma_used_bound(u, prefix@, local@, (index + 1) as nat);
        }
        index += 1;
    }
}

/// Stable destination names for the given symbol names.
fn destinations(names: &Vec<String>, mode: NestedCopyMode) -> (r: Vec<(String, String)>)
    ensures
        pairs_model(r@) == destinations_spec(strings_model(names@), mode),
{
    let sorted = sort_names(names);
    let ghost ss = strings_model(sorted@);
    let mut used: Vec<String> = Vec::new();
    let mut i: usize = 0;
    while i < sorted.len()
        invariant
            ss == strings_model(sorted@),
            i <= sorted@.len(),
            strings_model(used@) == upper_all(ss.take(i as int)),
        decreases sorted@.len() - i,
    {
        let ghost before = strings_model(used@);
        assert(ss[i as int] == sorted@[i as int]@);
        used.push(to_ascii_uppercase(sorted[i].as_str()));
        assert(strings_model(used@) =~= before.push(upper_seq(ss[i as int])));
        i += 1;
        assert(strings_model(used@) =~= upper_all(ss.take(i as int)));
    }
    assert(ss.take(sorted@.len() as int) =~= ss);
    let ghost init = DestinationState { used: upper_all(ss), map: Seq::empty() };
    let mut result: Vec<(String, String)> = Vec::new();
    assert(pairs_model(result@) =~= Seq::<(Seq<char>, Seq<char>)>::empty());
    let mut i: usize = 0;
    while i < sorted.len()
        invariant
            ss == strings_model(sorted@),
            i <= sorted@.len(),
            ({
                let st = destination_fold(ss.take(i as int), mode, init);
                strings_model(used@) == st.used && pairs_model(result@) == st.map
            }),
        decreases sorted@.len() - i,
    {
        let source = sorted[i].as_str();
        let n = char_count(source);
        proof {
            assert(ss.take(i + 1).drop_last() =~= ss.take(i as int));
            assert(ss.take(i + 1).last() == source@);
            lemma_last_bar_before(source@, n as int);
        }
        match last_bar_index(source) {
            Some(b) => {
                let prefix = source.substring_char(0, b);
                if last_bar_index(prefix).is_none() {
                    let local = source.substring_char(b + 1, n);
                    let destination = match mode {
                        NestedCopyMode::Insert => local.to_owned(),
                        NestedCopyMode::Bind => free_bound_name(&used, prefix, local),
                    };
                    let ghost d = destination@;
                    let key = to_ascii_uppercase(destination.as_str());
                    let ghost before = strings_model(used@);
                    used.push(key);
                    assert(strings_model(used@) =~= before.push(upper_seq(d)));
                    pair_insert(&mut result, to_ascii_uppercase(source), destination);
                }
            },
            None => {},
        }
        i += 1;
    }
    assert(ss.take(sorted@.len() as int) =~= ss);
    result
}

/// The destinations given so far are in use, none of them was in use at the
/// start, and no two of them are equal with ASCII case ignored.
pub open spec fn fresh_destinations(st: DestinationState, initial: Seq<Seq<char>>) -> bool {
    &&& initial.len() <= st.used.len()
    &&& st.used.take(initial.len() as int) == initial
    &&& forall|i: int| 0 <= i < st.map.len() ==> st.used.contains(upper_seq(#[trigger] st.map[i].1))
    &&& forall|i: int| 0 <= i < st.map.len() ==> !initial.contains(upper_seq(#[trigger] st.map[i].1))
    &&& forall|i: int, j: int| 0 <= i < j < st.map.len() ==> upper_seq(#[trigger] st.map[i].1) != upper_seq(#[trigger] st.map[j].1)
}

/// Binding keeps destinations fresh through every processed name.
pub proof fn lemma_fold_fresh(sources: Seq<Seq<char>>, initial: Seq<Seq<char>>)
    ensures
        fresh_destinations(
            destination_fold(sources, NestedCopyMode::Bind, DestinationState { used: initial, map: Seq::empty() }),
            initial,
        ),
    decreases sources.len(),
{
    let init = DestinationState { used: initial, map: Seq::empty() };
    if sources.len() == 0 {
        assert(initial.take(initial.len() as int) =~= initial);
    } else {
        lemma_fold_fresh(sources.drop_last(), initial);
        let st = destination_fold(sources.drop_last(), NestedCopyMode::Bind, init);
        let source = sources.last();
        match source_parts(source) {
            Some((prefix, local)) => {
                let d = destination_for(st.used, prefix, local, NestedCopyMode::Bind);
                lemma_free_index(st.used, prefix, local, 0);
                let ud = upper_seq(d);
                assert(!st.used.contains(ud));
                let used2 = st.used.push(ud);
                let map2 = pair_with(st.map, upper_seq(source), d);
                let k = pair_index_from(st.map, upper_seq(source), 0);
                lemma_pair_index_from(st.map, upper_seq(source), 0);
                assert(used2.take(initial.len() as int) =~= initial);
                assert forall|i: int| 0 <= i < map2.len() implies used2.contains(upper_seq(#[trigger] map2[i].1))
                    && !initial.contains(upper_seq(map2[i].1)) by {
                    if map2[i].1 == d {
                        assert(used2[used2.len() - 1] == ud);
                        if initial.contains(ud) {
                            let w = choose|w: int| 0 <= w < initial.len() && initial[w] == ud;
                            assert(st.used[w] == initial[w]);
                        }
                    } else {
                        assert(map2[i] == st.map[i]);
                        let w = choose|w: int| 0 <= w < st.used.len() && st.used[w] == upper_seq(st.map[i].1);
                        assert(used2[w] == st.used[w]);
                    }
                }
                assert forall|i: int, j: int| 0 <= i < j < map2.len() implies
                    upper_seq(#[trigger] map2[i].1) != upper_seq(#[trigger] map2[j].1) by {
                    if map2[i].1 == d && map2[j].1 != d {
                        assert(map2[j] == st.map[j]);
                        assert(st.used.contains(upper_seq(st.map[j].1)));
                    } else if map2[j].1 == d && map2[i].1 != d {
                        assert(map2[i] == st.map[i]);
                        assert(st.used.contains(upper_seq(st.map[i].1)));
                    } else if map2[i].1 != d && map2[j].1 != d {
                        assert(map2[i] == st.map[i]);
                        assert(map2[j] == st.map[j]);
                    } else {
                        if k < st.map.len() {
                            assert(i == k || map2[i] == st.map[i]);
                            assert(j == k || map2[j] == st.map[j]);
                            if i != k {
                                assert(st.used.contains(upper_seq(st.map[i].1)));
                            } else {
                                assert(st.used.contains(upper_seq(st.map[j].1)));
                            }
                        } else {
                            assert(map2[i] == st.map[i]);
                            assert(st.used.contains(upper_seq(st.map[i].1)));
                        }
                    }
                }
            },
            None => {},
        }
    }
}

/// A stably sorted list holds exactly the names of the original list.
pub proof fn lemma_sort_contains(names: Seq<Seq<char>>, y: Seq<char>)
    ensures
        sort_by_upper(names).contains(y) <==> names.contains(y),
        sort_by_upper(names).len() == names.len(),
    decreases names.len(),
{
    if names.len() > 0 {
        let s = sort_by_upper(names.drop_last());
        let x = names.last();
        lemma_sort_contains(names.drop_last(), y);
        lemma_insert_position(s, x, 0);
        let p = insert_position_from(s, x, 0);
        let t = insert_sorted(s, x);
        if t.contains(y) {
            let w = choose|w: int| 0 <= w < t.len() && t[w] == y;
            if w < p {
                assert(s[w] == y);
            } else if w > p {
                assert(s[w - 1] == y);
            }
            if y != x {
                let v = choose|v: int| 0 <= v < names.drop_last().len() && names.drop_last()[v] == y;
                assert(names[v] == y);
            } else {
                assert(names[names.len() - 1] == y);
            }
        }
        if names.contains(y) {
            let v = choose|v: int| 0 <= v < names.len() && names[v] == y;
            if v == names.len() - 1 {
                assert(t[p] == y);
            } else {
                assert(names.drop_last()[v] == y);
                let w = choose|w: int| 0 <= w < s.len() && s[w] == y;
                if w < p {
                    assert(t[w] == y);
                } else {
                    assert(t[w + 1] == y);
                }
            }
        }
    }
}

/// Binding gives every reference symbol a name that no existing symbol has and
/// that no other bound symbol gets, with ASCII case ignored.
pub proof fn law_bound_destinations_are_fresh(names: Seq<Seq<char>>)
    ensures
        ({
            let m = destinations_spec(names, NestedCopyMode::Bind);
            &&& forall|i: int| 0 <= i < m.len() ==> !upper_all(names).contains(upper_seq(#[trigger] m[i].1))
            &&& forall|i: int, j: int| 0 <= i < j < m.len() ==> upper_seq(#[trigger] m[i].1) != upper_seq(#[trigger] m[j].1)
        }),
{
    let sorted = sort_by_upper(names);
    lemma_fold_fresh(sorted, upper_all(sorted));
    let m = destinations_spec(names, NestedCopyMode::Bind);
    assert forall|i: int| 0 <= i < m.len() implies !upper_all(names).contains(upper_seq(#[trigger] m[i].1)) by {
        let u = upper_seq(m[i].1);
        if upper_all(names).contains(u) {
            let v = choose|v: int| 0 <= v < upper_all(names).len() && upper_all(names)[v] == u;
            lemma_sort_contains(names, names[v]);
            let w = choose|w: int| 0 <= w < sorted.len() && sorted[w] == names[v];
            assert(upper_all(sorted)[w] == u);
        }
    }
}

/// Stable destination names for all placements of one nested-copy operation:
/// for layers and for linetypes, pairs of a source name in ASCII upper case and
/// its destination.
#[derive(Clone, Debug)]
pub struct NestedCopySymbolNames {
    pub layers: Vec<(String, String)>,
    pub line_types: Vec<(String, String)>,
}

impl Default for NestedCopySymbolNames {
    fn default() -> (r: Self)
        ensures
            r.layers@.len() == 0,
            r.line_types@.len() == 0,
    {
        NestedCopySymbolNames { layers: Vec::new(), line_types: Vec::new() }
    }
}

/// Copies of the names of a table's records.
fn collect_names<T: TableRecord>(rs: &Vec<T>) -> (r: Vec<String>)
    ensures
        strings_model(r@) == record_names(rs@),
{
    let mut r: Vec<String> = Vec::new();
    let mut i: usize = 0;
    while i < rs.len()
        invariant
            i <= rs@.len(),
            strings_model(r@) == record_names(rs@.take(i as int)),
        decreases rs@.len() - i,
    {
        let ghost before = strings_model(r@);
        r.push(rs[i].name().to_owned());
        assert(strings_model(r@) =~= before.push(rs@[i as int].name_spec()));
        i += 1;
        assert(record_names(rs@.take(i as int)) =~= record_names(rs@.take(i - 1)).push(rs@[i - 1].name_spec()));
    }
    assert(rs@.take(rs@.len() as int) =~= rs@);
    r
}

/// The dictionary under `dictionary` (plain or with a default) has an entry
/// whose key equals `name`, ASCII case ignored, and whose target is the non-null `handle`.
pub open spec fn names_entry(objects: Map<u64, ObjectType>, dictionary: Handle, name: Seq<char>, handle: Handle) -> bool {
    handle.value != 0 && objects.contains_key(dictionary.value) && match objects[dictionary.value] {
        ObjectType::Dictionary(d) => has_entry(d, name, handle),
        ObjectType::DictionaryWithDefault(d) => has_entry(d, name, handle),
        _ => false,
    }
}

/// A dictionary entry with the given key (ASCII case ignored) and target.
pub open spec fn has_entry(d: Dictionary, name: Seq<char>, handle: Handle) -> bool {
    exists|i: int| 0 <= i < d.entries@.len() && eq_ci((#[trigger] d.entries@[i]).0@, name) && d.entries@[i].1 == handle
}

/// Whether a dictionary has an entry with the given key (ASCII case ignored) and target.
fn dictionary_has_entry(d: &Dictionary, name: &str, handle: Handle) -> (r: bool)
    ensures
        r == has_entry(*d, name@, handle),
{
    let mut i: usize = 0;
    while i < d.entries.len()
        invariant
            i <= d.entries@.len(),
            forall|j: int| 0 <= j < i ==> !(eq_ci((#[trigger] d.entries@[j]).0@, name@) && d.entries@[j].1 == handle),
        decreases d.entries@.len() - i,
    {
        if eq_ignore_ascii_case(d.entries[i].0.as_str(), name) && d.entries[i].1.value == handle.value {
            return true;
        }
        i += 1;
    }
    false
}

impl CadDocument {
    /// Whether the dictionary under `dictionary` names `handle` under `name`.
    fn names_entry(&self, dictionary: Handle, name: &str, handle: Handle) -> (r: bool)
        ensures
            r == names_entry(self.objects@, dictionary, name@, handle),
    {
        if handle.is_null() {
            return false;
        }
        match self.objects.get(&dictionary.value) {
            Some(ObjectType::Dictionary(d)) => dictionary_has_entry(d, name, handle),
            Some(ObjectType::DictionaryWithDefault(d)) => dictionary_has_entry(d, name, handle),
            _ => false,
        }
    }

    /// Normalize only source dictionary entries with default, document-independent semantics.
    /// Null retains the model's implicit default; writers resolve it to host default handles.
    pub fn normalize_imported_layer_defaults(&self, layer: &mut Layer)
        ensures
            final(layer).plotstyle_handle == (if names_entry(self.objects@, self.header.acad_plotstylename_dict_handle,
                "Normal"@, old(layer).plotstyle_handle) {
                Handle { value: 0 }
            } else {
                old(layer).plotstyle_handle
            }),
            final(layer).material == (if names_entry(self.objects@, self.header.acad_material_dict_handle,
                "ByLayer"@, old(layer).material) {
                Handle { value: 0 }
            } else {
                old(layer).material
            }),
            *final(layer) == (Layer { plotstyle_handle: final(layer).plotstyle_handle, material: final(layer).material, ..*old(layer) }),
    {
        if self.names_entry(self.header.acad_plotstylename_dict_handle, "Normal", layer.plotstyle_handle) {
            layer.plotstyle_handle = Handle::null();
        }
        if self.names_entry(self.header.acad_material_dict_handle, "ByLayer", layer.material) {
            layer.material = Handle::null();
        }
    }

    /// Names of the document's layers.
    pub open spec fn layer_names(&self) -> Seq<Seq<char>> {
        record_names(self.layers.entries@)
    }

    /// Names of the document's linetypes.
    pub open spec fn line_type_names(&self) -> Seq<Seq<char>> {
        record_names(self.line_types.entries@)
    }

    /// Destination names of the document's reference layers and linetypes.
    pub fn nested_copy_symbol_names(&self, mode: NestedCopyMode) -> (r: NestedCopySymbolNames)
        ensures
            pairs_model(r.layers@) == destinations_spec(self.layer_names(), mode),
            pairs_model(r.line_types@) == destinations_spec(self.line_type_names(), mode),
    {
        let layer_names = collect_names(&self.layers.entries);
        let line_type_names = collect_names(&self.line_types.entries);
        NestedCopySymbolNames {
            layers: destinations(&layer_names, mode),
            line_types: destinations(&line_type_names, mode),
        }
    }
}

} // verus!
