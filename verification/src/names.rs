//! How the broker keys of a queue are spelled.
//!
//! The main list of a queue lives under the namespaced queue name. Each
//! consumer keeps its fetched jobs under a key of its own, made of the main
//! key, the consumer's process number in decimal and its worker label.

use vstd::prelude::*;
use vstd::string::StringExecFns;

verus! {

/// The namespace in front of every queue name.
pub open spec fn namespace() -> Seq<char> {
    "oppgave:"@
}

/// The worker label of a consumer that has none of its own.
pub open spec fn default_label() -> Seq<char> {
    "default"@
}

/// The decimal digit for a number below ten.
pub open spec fn digit_char(d: nat) -> char {
    if d == 0 {
        '0'
    } else if d == 1 {
        '1'
    } else if d == 2 {
        '2'
    } else if d == 3 {
        '3'
    } else if d == 4 {
        '4'
    } else if d == 5 {
        '5'
    } else if d == 6 {
        '6'
    } else if d == 7 {
        '7'
    } else if d == 8 {
        '8'
    } else {
        '9'
    }
}

/// The number that a decimal digit stands for.
pub open spec fn digit_value(c: char) -> nat {
    if c == '1' {
        1
    } else if c == '2' {
        2
    } else if c == '3' {
        3
    } else if c == '4' {
        4
    } else if c == '5' {
        5
    } else if c == '6' {
        6
    } else if c == '7' {
        7
    } else if c == '8' {
        8
    } else if c == '9' {
        9
    } else {
        0
    }
}

/// A number written in decimal, without leading zeros.
pub open spec fn decimal(n: nat) -> Seq<char>
    decreases n,
{
    if n < 10 {
        seq![digit_char(n)]
    } else {
        decimal(n / 10).push(digit_char(n % 10))
    }
}

/// The number that a run of decimal digits stands for.
pub open spec fn decimal_value(s: Seq<char>) -> nat
    decreases s.len(),
{
    if s.len() == 0 {
        0
    } else {
        decimal_value(s.drop_last()) * 10 + digit_value(s.last())
    }
}

/// The key of a queue's main list.
pub open spec fn queue_key(name: Seq<char>) -> Seq<char> {
    namespace() + name
}

/// What tells one consumer from another: its process number and its label.
pub open spec fn consumer_identity(pid: nat, label: Seq<char>) -> Seq<char> {
    decimal(pid) + seq![':'] + label
}

/// The key of the backup list that the consumer `(pid, label)` keeps for the
/// main list under `queue`.
pub open spec fn backup_key(queue: Seq<char>, pid: nat, label: Seq<char>) -> Seq<char> {
    queue + seq![':'] + consumer_identity(pid, label)
}

/// Reading back a decimal numeral gives the number that was written.
pub proof fn lemma_decimal_value(n: nat)
    ensures
        decimal_value(decimal(n)) == n,
        decimal(n).len() > 0,
        forall|i: int| 0 <= i < decimal(n).len() ==> #[trigger] decimal(n)[i] != ':',
    decreases n,
{
    if n < 10 {
        assert(decimal(n).drop_last() =~= Seq::<char>::empty());
        assert(decimal_value(decimal(n).drop_last()) == 0);
    } else {
        lemma_decimal_value(n / 10);
        assert(decimal(n).drop_last() =~= decimal(n / 10));
        assert(decimal(n).last() == digit_char(n % 10));
    }
}

/// Two different numbers are never written alike.
pub proof fn lemma_decimal_injective(a: nat, b: nat)
    requires
        decimal(a) == decimal(b),
    ensures
        a == b,
{
    lemma_decimal_value(a);
    lemma_decimal_value(b);
}

/// A consumer identity determines the process number and the label it was
/// made of.
pub proof fn lemma_identity_injective(pid1: nat, label1: Seq<char>, pid2: nat, label2: Seq<char>)
    requires
        consumer_identity(pid1, label1) == consumer_identity(pid2, label2),
    ensures
        pid1 == pid2,
        label1 == label2,
{
    let a = decimal(pid1);
    let b = decimal(pid2);
    let s = consumer_identity(pid1, label1);
    let t = consumer_identity(pid2, label2);
    lemma_decimal_value(pid1);
    lemma_decimal_value(pid2);
    if a.len() < b.len() {
        assert(s[a.len() as int] == ':');
        assert(t[a.len() as int] == b[a.len() as int]);
        assert(false);
    }
    if b.len() < a.len() {
        assert(t[b.len() as int] == ':');
        assert(s[b.len() as int] == a[b.len() as int]);
        assert(false);
    }
    assert(a =~= s.subrange(0, a.len() as int));
    assert(b =~= t.subrange(0, b.len() as int));
    lemma_decimal_injective(pid1, pid2);
    assert(label1 =~= s.subrange(a.len() as int + 1, s.len() as int));
    assert(label2 =~= t.subrange(b.len() as int + 1, t.len() as int));
}

/// A backup key determines the consumer it belongs to: over one main list,
/// two consumers share a backup key only if they have the same process
/// number and the same label.
pub proof fn lemma_backup_key_injective(
    queue: Seq<char>,
    pid1: nat,
    label1: Seq<char>,
    pid2: nat,
    label2: Seq<char>,
)
    requires
        backup_key(queue, pid1, label1) == backup_key(queue, pid2, label2),
    ensures
        pid1 == pid2,
        label1 == label2,
{
    let s = backup_key(queue, pid1, label1);
    let t = backup_key(queue, pid2, label2);
    let n: int = queue.len() as int + 1;
    assert(consumer_identity(pid1, label1) =~= s.subrange(n, s.len() as int));
    assert(consumer_identity(pid2, label2) =~= t.subrange(n, t.len() as int));
    lemma_identity_injective(pid1, label1, pid2, label2);
}

/// A backup key is never the key of the main list it belongs to.
pub proof fn lemma_backup_key_differs(queue: Seq<char>, pid: nat, label: Seq<char>)
    ensures
        backup_key(queue, pid, label) != queue,
{
    assert(backup_key(queue, pid, label).len() > queue.len());
}

/// The one-character string of a decimal digit.
fn digit_str(d: u32) -> (s: &'static str)
    requires
        d < 10,
    ensures
        s@ == seq![digit_char(d as nat)],
{
    proof {
        reveal_strlit("0");
        reveal_strlit("1");
        reveal_strlit("2");
        reveal_strlit("3");
        reveal_strlit("4");
        reveal_strlit("5");
        reveal_strlit("6");
        reveal_strlit("7");
        reveal_strlit("8");
        reveal_strlit("9");
    }
    let s: &'static str = if d == 0 {
        "0"
    } else if d == 1 {
        "1"
    } else if d == 2 {
        "2"
    } else if d == 3 {
        "3"
    } else if d == 4 {
        "4"
    } else if d == 5 {
        "5"
    } else if d == 6 {
        "6"
    } else if d == 7 {
        "7"
    } else if d == 8 {
        "8"
    } else {
        "9"
    };
    assert(s@ =~= seq![digit_char(d as nat)]);
    s
}

/// Writes a number in decimal.
pub fn decimal_string(n: u32) -> (s: String)
    ensures
        s@ == decimal(n as nat),
    decreases n,
{
    if n < 10 {
        String::from_str(digit_str(n))
    } else {
        let mut s = decimal_string(n / 10);
        s.append(digit_str(n % 10));
        assert(s@ =~= decimal(n as nat));
        s
    }
}

/// Spells the key of the main list of the queue called `name`.
pub fn queue_name(name: &str) -> (key: String)
    ensures
        key@ == queue_key(name@),
{
    let mut key = String::from_str("oppgave:");
    key.append(name);
    key
}

/// Spells the key of the backup list that the consumer `(pid, label)` keeps
/// for the main list under `queue`.
pub fn backup_queue_name(queue: &str, pid: u32, label: &str) -> (key: String)
    ensures
        key@ == backup_key(queue@, pid as nat, label@),
{
    let mut key = String::from_str(queue);
    key.append(":");
    let number = decimal_string(pid);
    key.append(number.as_str());
    key.append(":");
    key.append(label);
    proof {
        reveal_strlit(":");
        assert(key@ =~= backup_key(queue@, pid as nat, label@));
    }
    key
}

} // verus!
