//! Resolution of a target given as a numeric process id or as an exact
//! process name, against a snapshot of the process table.

use vstd::prelude::*;

verus! {

/// One row of the process table.
pub struct ProcessEntry {
    pub pid: u32,
    pub name: String,
}

/// The decimal digit character for `d` (below ten).
pub open spec fn digit_char(d: nat) -> char {
    ((48 + d) as u8) as char
}

/// The decimal representation of `n`, without sign or leading zeros.
pub open spec fn decimal(n: nat) -> Seq<char>
    decreases n,
{
    if n < 10 {
        seq![digit_char(n)]
    } else {
        decimal(n / 10).push(digit_char(n % 10))
    }
}

/// A row answers the query when the query is its id written in decimal, or
/// exactly its name.
pub open spec fn entry_matches(e: ProcessEntry, query: Seq<char>) -> bool {
    decimal(e.pid as nat) == query || e.name@ == query
}

/// `i` is the first row of `table` that answers the query.
pub open spec fn is_first_match(table: Seq<ProcessEntry>, query: Seq<char>, i: int) -> bool {
    &&& 0 <= i < table.len()
    &&& entry_matches(table[i], query)
    &&& forall|j: int| 0 <= j < i ==> !entry_matches(#[trigger] table[j], query)
}

/// What a lookup answers: the id of the first row that answers the query,
/// or nothing when no row does.
pub open spec fn lookup_result(table: Seq<ProcessEntry>, query: Seq<char>) -> Option<u32> {
    if exists|i: int| is_first_match(table, query, i) {
        Some(table[choose|i: int| is_first_match(table, query, i)].pid)
    } else {
        None
    }
}

fn decimal_digits(n: u32) -> (r: Vec<char>)
    ensures
        r@ == decimal(n as nat),
    decreases n,
{
    if n < 10 {
        let c = ((48 + n) as u8) as char;
        let mut v: Vec<char> = Vec::new();
        v.push(c);
        assert(v@ =~= decimal(n as nat));
        v
    } else {
        let mut v = decimal_digits(n / 10);
        let c = ((48 + n % 10) as u8) as char;
        v.push(c);
        v
    }
}

fn chars_equal(v: &Vec<char>, s: &str) -> (r: bool)
    ensures
        r == (v@ == s@),
{
    let n = s.unicode_len();
    if v.len() != n {
        return false;
    }
    let mut i: usize = 0;
    while i < n
        invariant
            n == s@.len(),
            v@.len() == n,
            i <= n,
            forall|j: int| 0 <= j < i ==> v@[j] == s@[j],
        decreases n - i,
    {
        if v[i] != s.get_char(i) {
            return false;
        }
        i = i + 1;
    }
    assert(v@ =~= s@);
    true
}

fn str_equal(a: &str, b: &str) -> (r: bool)
    ensures
        r == (a@ == b@),
{
    let n = a.unicode_len();
    if b.unicode_len() != n {
        return false;
    }
    let mut i: usize = 0;
    while i < n
        invariant
            n == a@.len(),
            b@.len() == n,
            i <= n,
            forall|j: int| 0 <= j < i ==> a@[j] == b@[j],
        decreases n - i,
    {
        if a.get_char(i) != b.get_char(i) {
            return false;
        }
        i = i + 1;
    }
    assert(a@ =~= b@);
    true
}

/// Whether the row answers the query.
pub fn matches_query(entry: &ProcessEntry, query: &str) -> (r: bool)
    ensures
        r == entry_matches(*entry, query@),
{
    let digits = decimal_digits(entry.pid);
    chars_equal(&digits, query) || str_equal(entry.name.as_str(), query)
}

/// Finds the process that `query` designates: the id of the first row whose
/// id, written in decimal, or whose name equals the query.
pub fn find_pid(table: &Vec<ProcessEntry>, query: &str) -> (r: Option<u32>)
    ensures
        r == lookup_result(table@, query@),
        r.is_none() <==> forall|i: int|
            0 <= i < table@.len() ==> !entry_matches(#[trigger] table@[i], query@),
{
    let mut i: usize = 0;
    while i < table.len()
        invariant
            i <= table@.len(),
            forall|j: int| 0 <= j < i ==> !entry_matches(#[trigger] table@[j], query@),
        decreases table@.len() - i,
    {
        if matches_query(&table[i], query) {
            assert(is_first_match(table@, query@, i as int));
            proof {
                lemma_first_match_unique(table@, query@, i as int);
            }
            return Some(table[i].pid);
        }
        i = i + 1;
    }
    assert(!exists|k: int| is_first_match(table@, query@, k));
    None
}

/// There is at most one first match.
proof fn lemma_first_match_unique(table: Seq<ProcessEntry>, query: Seq<char>, i: int)
    requires
        is_first_match(table, query, i),
    ensures
        forall|k: int| is_first_match(table, query, k) ==> k == i,
{
    assert forall|k: int| is_first_match(table, query, k) implies k == i by {
        if k < i {
            assert(!entry_matches(table[k], query));
        } else if i < k {
            assert(!entry_matches(table[i], query));
        }
    }
}

proof fn lemma_decimal_nonempty(n: nat)
    ensures
        decimal(n).len() >= 1,
        n >= 10 ==> decimal(n).len() >= 2,
    decreases n,
{
    if n >= 10 {
        lemma_decimal_nonempty(n / 10);
    }
}

proof fn lemma_digit_char_injective(a: nat, b: nat)
    requires
        a < 10,
        b < 10,
        digit_char(a) == digit_char(b),
    ensures
        a == b,
{
    assert(((48 + a) as u8) as u32 == 48 + a);
    assert(((48 + b) as u8) as u32 == 48 + b);
}

/// Distinct numbers have distinct decimal representations.
pub proof fn lemma_decimal_injective(a: nat, b: nat)
    requires
        decimal(a) == decimal(b),
    ensures
        a == b,
    decreases a,
{
    lemma_decimal_nonempty(a);
    lemma_decimal_nonempty(b);
    if a < 10 && b < 10 {
        assert(decimal(a)[0] == digit_char(a));
        assert(decimal(b)[0] == digit_char(b));
        lemma_digit_char_injective(a, b);
    } else if a >= 10 && b >= 10 {
        let da = decimal(a);
        let db = decimal(b);
        assert(da.last() == digit_char(a % 10));
        assert(db.last() == digit_char(b % 10));
        lemma_digit_char_injective(a % 10, b % 10);
        assert(decimal(a / 10) =~= da.drop_last());
        assert(decimal(b / 10) =~= db.drop_last());
        lemma_decimal_injective(a / 10, b / 10);
    }
}

/// A query that is the decimal id of a listed process finds that process,
/// provided ids are unique and no process is named by that decimal string.
pub proof fn lemma_lookup_by_pid(table: Seq<ProcessEntry>, pid: u32)
    requires
        exists|i: int| 0 <= i < table.len() && #[trigger] table[i].pid == pid,
        forall|i: int, j: int|
            0 <= i < table.len() && 0 <= j < table.len() && table[i].pid == table[j].pid ==> i == j,
        forall|i: int| 0 <= i < table.len() ==> #[trigger] table[i].name@ != decimal(pid as nat),
    ensures
        lookup_result(table, decimal(pid as nat)) == Some(pid),
{
    let q = decimal(pid as nat);
    let i = choose|i: int| 0 <= i < table.len() && #[trigger] table[i].pid == pid;
    assert forall|j: int| 0 <= j < table.len() && entry_matches(#[trigger] table[j], q) implies j == i by {
        lemma_decimal_injective(table[j].pid as nat, pid as nat);
    }
    assert(is_first_match(table, q, i));
    lemma_first_match_unique(table, q, i);
}

/// A query that is exactly the name of a listed process finds a process of
/// that name, provided no process id is written as that name.
pub proof fn lemma_lookup_by_name(table: Seq<ProcessEntry>, name: Seq<char>)
    requires
        exists|i: int| 0 <= i < table.len() && #[trigger] table[i].name@ == name,
        forall|i: int| 0 <= i < table.len() ==> decimal(#[trigger] table[i].pid as nat) != name,
    ensures
        exists|i: int|
            0 <= i < table.len() && table[i].name@ == name && lookup_result(table, name) == Some(
                #[trigger] table[i].pid,
            ),
{
    let w = choose|i: int| 0 <= i < table.len() && #[trigger] table[i].name@ == name;
    assert(entry_matches(table[w], name));
    let i = lemma_some_first_match(table, name, w);
    lemma_first_match_unique(table, name, i);
    assert(lookup_result(table, name) == Some(table[i].pid));
}

/// A query that no row answers finds nothing.
pub proof fn lemma_lookup_absent(table: Seq<ProcessEntry>, query: Seq<char>)
    requires
        forall|i: int| 0 <= i < table.len() ==> !entry_matches(#[trigger] table[i], query),
    ensures
        lookup_result(table, query) == None::<u32>,
{
}

/// Where some row answers the query, a first one does.
proof fn lemma_some_first_match(table: Seq<ProcessEntry>, query: Seq<char>, w: int) -> (i: int)
    requires
        0 <= w < table.len(),
        entry_matches(table[w], query),
    ensures
        is_first_match(table, query, i),
    decreases w,
{
    if forall|j: int| 0 <= j < w ==> !entry_matches(#[trigger] table[j], query) {
        w
    } else {
        let k = choose|j: int| 0 <= j < w && !!entry_matches(#[trigger] table[j], query);
        lemma_some_first_match(table, query, k)
    }
}

} // verus!
