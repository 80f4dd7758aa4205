//! Small tools on strings and lists of strings.

use vstd::prelude::*;
use vstd::string::StringExecFns;
use crate::value::text_views;

verus! {

/// The character of a decimal digit.
pub open spec fn digit_char(d: nat) -> char {
    if d == 0 {
        '0'
    } else if d == 1 {
        '1'
    } else if d == 2 {
        '2'
    } else if d == 3 {
        '3'
    } else if d == 4 {
        '4'
    } else if d == 5 {
        '5'
    } else if d == 6 {
        '6'
    } else if d == 7 {
        '7'
    } else if d == 8 {
        '8'
    } else {
        '9'
    }
}

/// The decimal numeral of a number: no sign, no leading zero but for zero
/// itself.
pub open spec fn decimal(n: nat) -> Seq<char>
    decreases n,
{
    if n < 10 {
        seq![digit_char(n)]
    } else {
        decimal(n / 10).push(digit_char(n % 10))
    }
}

fn digit_text(d: u64) -> (s: &'static str)
    requires
        d < 10,
    ensures
        s@ == seq![digit_char(d as nat)],
{
    proof {
        reveal_strlit("0");
        reveal_strlit("1");
        reveal_strlit("2");
        reveal_strlit("3");
        reveal_strlit("4");
        reveal_strlit("5");
        reveal_strlit("6");
        reveal_strlit("7");
        reveal_strlit("8");
        reveal_strlit("9");
    }
    let s = if d == 0 {
        "0"
    } else if d == 1 {
        "1"
    } else if d == 2 {
        "2"
    } else if d == 3 {
        "3"
    } else if d == 4 {
        "4"
    } else if d == 5 {
        "5"
    } else if d == 6 {
        "6"
    } else if d == 7 {
        "7"
    } else if d == 8 {
        "8"
    } else {
        "9"
    };
    assert(s@ =~= seq![digit_char(d as nat)]);
    s
}

/// Writes a number as its decimal numeral.
pub fn decimal_text(n: u64) -> (s: String)
    ensures
        s@ == decimal(n as nat),
    decreases n,
{
    if n < 10 {
        String::from_str(digit_text(n))
    } else {
        let mut s = decimal_text(n / 10);
        s.append(digit_text(n % 10));
        assert(s@ =~= decimal(n as nat));
        s
    }
}

/// The decimal numeral of an integer, with a minus sign where it is negative.
pub open spec fn signed_decimal(i: int) -> Seq<char> {
    if i < 0 {
        seq!['-'] + decimal((-i) as nat)
    } else {
        decimal(i as nat)
    }
}

/// Writes an integer as its decimal numeral.
pub fn signed_decimal_text(i: i64) -> (s: String)
    ensures
        s@ == signed_decimal(i as int),
{
    if i < 0 {
        let magnitude: u64 = if i == i64::MIN {
            9223372036854775808u64
        } else {
            (-i) as u64
        };
        proof {
            reveal_strlit("-");
        }
        let mut s = String::from_str("-");
        s.append(decimal_text(magnitude).as_str());
        assert(s@ =~= signed_decimal(i as int));
        s
    } else {
        decimal_text(i as u64)
    }
}

/// Joins three pieces of text.
pub fn concat3(a: &str, b: &str, c: &str) -> (s: String)
    ensures
        s@ == a@ + b@ + c@,
{
    let mut s = String::from_str(a);
    s.append(b);
    s.append(c);
    s
}

/// The list without the entries equal to `x`, the rest in their order.
pub open spec fn without(list: Seq<Seq<char>>, x: Seq<char>) -> Seq<Seq<char>>
    decreases list.len(),
{
    if list.len() == 0 {
        list
    } else if list.last() == x {
        without(list.drop_last(), x)
    } else {
        without(list.drop_last(), x).push(list.last())
    }
}

/// The list with `x` added at the end unless it is in it already.
pub open spec fn with_member(list: Seq<Seq<char>>, x: Seq<char>) -> Seq<Seq<char>> {
    if list.contains(x) {
        list
    } else {
        list.push(x)
    }
}

/// What [`without`] keeps and what it drops: the result holds no `x`, holds
/// every other entry that the list holds and no further one, and is the list
/// itself where the list holds no `x`.
pub proof fn law_without_drops_exactly(list: Seq<Seq<char>>, x: Seq<char>)
    ensures
        !without(list, x).contains(x),
        forall|y: Seq<char>| y != x ==> (without(list, x).contains(y) <==> list.contains(y)),
        without(list, x).len() <= list.len(),
        !list.contains(x) ==> without(list, x) == list,
    decreases list.len(),
{
    if list.len() > 0 {
        let rest = list.drop_last();
        let last = list.last();
        let wr = without(rest, x);
        let w = without(list, x);
        law_without_drops_exactly(rest, x);
        assert(list =~= rest.push(last));
        assert forall|y: Seq<char>| list.contains(y) <==> (rest.contains(y) || y == last) by {
            if list.contains(y) {
                let i = choose|i: int| 0 <= i < list.len() && list[i] == y;
                if i < rest.len() {
                    assert(rest[i] == y);
                }
            }
            if rest.contains(y) {
                let i = choose|i: int| 0 <= i < rest.len() && rest[i] == y;
                assert(list[i] == y);
            }
            if y == last {
                assert(list[list.len() - 1] == y);
            }
        }
        if last != x {
            assert(w == wr.push(last));
            assert forall|y: Seq<char>| w.contains(y) <==> (wr.contains(y) || y == last) by {
                if w.contains(y) {
                    let j = choose|j: int| 0 <= j < w.len() && w[j] == y;
                    if j < wr.len() {
                        assert(wr[j] == y);
                    }
                }
                if wr.contains(y) {
                    let j = choose|j: int| 0 <= j < wr.len() && wr[j] == y;
                    assert(w[j] == y);
                }
                if y == last {
                    assert(w[w.len() - 1] == y);
                }
            }
            if !list.contains(x) {
                assert(w =~= list);
            }
        } else {
            assert(w == wr);
        }
    }
}

/// Adding a member keeps a list without repetitions without repetitions, and
/// the member is in the list afterwards.
pub proof fn law_with_member_keeps_members_unique(list: Seq<Seq<char>>, x: Seq<char>)
    requires
        list.no_duplicates(),
    ensures
        with_member(list, x).no_duplicates(),
        with_member(list, x).contains(x),
        forall|y: Seq<char>| list.contains(y) ==> with_member(list, x).contains(y),
{
    let after = with_member(list, x);
    if !list.contains(x) {
        assert(after[after.len() - 1] == x);
        assert forall|y: Seq<char>| list.contains(y) implies after.contains(y) by {
            let i = choose|i: int| 0 <= i < list.len() && list[i] == y;
            assert(after[i] == y);
        }
        assert forall|i: int, j: int|
            0 <= i < after.len() && 0 <= j < after.len() && i != j implies after[i] != after[j] by {
            if i < list.len() && j < list.len() {
                assert(list[i] != list[j]);
            } else if i < list.len() {
                assert(list.contains(list[i]));
            } else if j < list.len() {
                assert(list.contains(list[j]));
            }
        }
    }
}

/// Whether the list holds a string equal to `x`.
pub fn contains_text(list: &Vec<String>, x: &String) -> (b: bool)
    ensures
        b == text_views(list@).contains(x@),
{
    let mut i: usize = 0;
    while i < list.len()
        invariant
            i <= list.len(),
            forall|j: int| 0 <= j < i ==> text_views(list@)[j] != x@,
        decreases list.len() - i,
    {
        assert(text_views(list@)[i as int] == list@[i as int]@);
        if list[i] == *x {
            return true;
        }
        i = i + 1;
    }
    false
}

/// The list with `x` added unless it is in it already: see [`with_member`].
pub fn insert_text(list: &Vec<String>, x: &String) -> (r: Vec<String>)
    ensures
        text_views(r@) == with_member(text_views(list@), x@),
{
    let mut r = crate::value::clone_texts(list);
    if !contains_text(list, x) {
        let ghost before = text_views(r@);
        r.push(x.clone());
        assert(text_views(r@) =~= before.push(x@));
    }
    r
}

/// The list without the entries equal to `x`: see [`without`].
pub fn remove_text(list: &Vec<String>, x: &String) -> (r: Vec<String>)
    ensures
        text_views(r@) == without(text_views(list@), x@),
{
    let mut r: Vec<String> = Vec::new();
    let mut i: usize = 0;
    let ghost all = text_views(list@);
    assert(all.take(0) =~= Seq::<Seq<char>>::empty());
    assert(text_views(r@) =~= Seq::<Seq<char>>::empty());
    while i < list.len()
        invariant
            i <= list.len(),
            all == text_views(list@),
            text_views(r@) == without(all.take(i as int), x@),
        decreases list.len() - i,
    {
        let ghost before = text_views(r@);
        assert(all.take(i + 1).drop_last() =~= all.take(i as int));
        assert(all.take(i + 1).last() == list@[i as int]@);
        if !(list[i] == *x) {
            r.push(list[i].clone());
            assert(text_views(r@) =~= before.push(list@[i as int]@));
        }
        i = i + 1;
    }
    assert(all.take(list.len() as int) =~= all);
    r
}

} // verus!
