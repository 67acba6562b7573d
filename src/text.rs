use crate::node::{Node, NodeKind};
use vstd::prelude::*;

verus! {

/// The character of a decimal digit.
pub open spec fn digit_char(d: nat) -> char {
    if d == 0 {
        '0'
    } else if d == 1 {
        '1'
    } else if d == 2 {
        '2'
    } else if d == 3 {
        '3'
    } else if d == 4 {
        '4'
    } else if d == 5 {
        '5'
    } else if d == 6 {
        '6'
    } else if d == 7 {
        '7'
    } else if d == 8 {
        '8'
    } else {
        '9'
    }
}

/// The decimal digits of a natural number, most significant first, with no
/// leading zero.
pub open spec fn decimal_nat(n: nat) -> Seq<char>
    decreases n,
{
    if n < 10 {
        seq![digit_char(n)]
    } else {
        decimal_nat(n / 10) + seq![digit_char(n % 10)]
    }
}

/// The decimal text of an integer, with a leading `-` when it is negative.
pub open spec fn decimal_int(i: int) -> Seq<char> {
    if i < 0 {
        seq!['-'] + decimal_nat((-i) as nat)
    } else {
        decimal_nat(i as nat)
    }
}

/// The name of a node kind.
pub open spec fn kind_name(k: NodeKind) -> Seq<char> {
    match k {
        NodeKind::Branch => seq!['B', 'r', 'a', 'n', 'c', 'h'],
        NodeKind::Leaf => seq!['L', 'e', 'a', 'f'],
    }
}

/// How a node reads: `(Branch_<index>)` or `(Leaf_<index>)`.
pub open spec fn node_label(n: Node) -> Seq<char> {
    seq!['('] + kind_name(n.kind) + seq!['_'] + decimal_int(n.index as int) + seq![')']
}

fn digit_str(d: u32) -> (r: &'static str)
    requires
        d < 10,
    ensures
        r@ == seq![digit_char(d as nat)],
{
    proof {
        reveal_strlit("0");
        reveal_strlit("1");
        reveal_strlit("2");
        reveal_strlit("3");
        reveal_strlit("4");
        reveal_strlit("5");
        reveal_strlit("6");
        reveal_strlit("7");
        reveal_strlit("8");
        reveal_strlit("9");
    }
    let r = match d {
        0 => "0",
        1 => "1",
        2 => "2",
        3 => "3",
        4 => "4",
        5 => "5",
        6 => "6",
        7 => "7",
        8 => "8",
        _ => "9",
    };
    assert(r@ =~= seq![digit_char(d as nat)]);
    r
}

fn push_decimal(s: &mut String, n: u32)
    ensures
        final(s)@ == old(s)@ + decimal_nat(n as nat),
    decreases n,
{
    if n >= 10 {
        push_decimal(s, n / 10);
    }
    s.append(digit_str(n % 10));
    assert(final(s)@ =~= old(s)@ + decimal_nat(n as nat));
}

/// Appends the decimal text of `i` to `s`.
pub fn push_i32(s: &mut String, i: i32)
    ensures
        final(s)@ == old(s)@ + decimal_int(i as int),
{
    proof {
        reveal_strlit("-");
    }
    if i < 0 {
        s.append("-");
        let m: u32 = (-(i as i64)) as u32;
        assert(m as int == -(i as int));
        push_decimal(s, m);
        assert(final(s)@ =~= old(s)@ + decimal_int(i as int));
    } else {
        push_decimal(s, i as u32);
    }
}

/// The decimal text of `i`.
pub fn i32_text(i: i32) -> (r: String)
    ensures
        r@ == decimal_int(i as int),
{
    let mut s = String::new();
    push_i32(&mut s, i);
    assert(s@ =~= decimal_int(i as int));
    s
}

/// How a node's attributes read in a graph description: `label = "<label>" `.
pub open spec fn node_attributes(n: Node) -> Seq<char> {
    seq!['l', 'a', 'b', 'e', 'l', ' ', '=', ' ', '"'] + node_label(n) + seq!['"', ' ']
}

/// The text `(Branch_<index>)` or `(Leaf_<index>)` of a node.
pub fn label_of(n: &Node) -> (r: String)
    ensures
        r@ == node_label(*n),
{
    proof {
        reveal_strlit("(");
        reveal_strlit("Branch");
        reveal_strlit("Leaf");
        reveal_strlit("_");
        reveal_strlit(")");
    }
    let mut s = String::from_str("(");
    match n.kind {
        NodeKind::Branch => s.append("Branch"),
        NodeKind::Leaf => s.append("Leaf"),
    }
    s.append("_");
    push_i32(&mut s, n.index);
    s.append(")");
    assert(s@ =~= node_label(*n));
    s
}

/// The attribute text of a node in a graph description.
pub fn attributes_of(n: &Node) -> (r: String)
    ensures
        r@ == node_attributes(*n),
{
    proof {
        reveal_strlit("label = \"");
        reveal_strlit("\" ");
    }
    let mut s = String::from_str("label = \"");
    let label = label_of(n);
    s.append(label.as_str());
    s.append("\" ");
    assert(s@ =~= node_attributes(*n));
    s
}

/// The attribute text of an edge in a graph description: none beyond its label.
pub fn no_attributes() -> (r: String)
    ensures
        r@ == Seq::<char>::empty(),
{
    String::new()
}

} // verus!
