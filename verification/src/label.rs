//! Human-readable labels such as `SMA(9)` or `CE(22, 3)`.

use crate::fixed::SCALE;
use vstd::prelude::*;
use vstd::string::StringExecFns;

verus! {

/// The character that writes the digit `d`.
pub open spec fn digit(d: int) -> char {
    if d == 0 {
        '0'
    } else if d == 1 {
        '1'
    } else if d == 2 {
        '2'
    } else if d == 3 {
        '3'
    } else if d == 4 {
        '4'
    } else if d == 5 {
        '5'
    } else if d == 6 {
        '6'
    } else if d == 7 {
        '7'
    } else if d == 8 {
        '8'
    } else {
        '9'
    }
}

/// The decimal digits of `n`, most significant first, without leading
/// zeros.
pub open spec fn decimal(n: nat) -> Seq<char>
    decreases n,
{
    if n < 10 {
        seq![digit(n as int)]
    } else {
        decimal(n / 10).push(digit((n % 10) as int))
    }
}

/// The digits of the fraction `frac / (10 * unit)`, one per power of ten
/// from `unit` down, without trailing zeros.
pub open spec fn fraction(frac: nat, unit: nat) -> Seq<char>
    decreases unit,
{
    if frac == 0 || unit == 0 {
        Seq::<char>::empty()
    } else {
        seq![digit((frac / unit) as int)] + fraction(frac % unit, unit / 10)
    }
}

/// The decimal text of the fixed-point value `x`: a minus sign where it
/// is negative, the whole part, and the fraction after a point where
/// there is one.
pub open spec fn fixed_text(x: int) -> Seq<char> {
    let magnitude = if x < 0 {
        (-x) as nat
    } else {
        x as nat
    };
    let whole = magnitude / (SCALE as nat);
    let frac = magnitude % (SCALE as nat);
    let sign = if x < 0 {
        seq!['-']
    } else {
        Seq::<char>::empty()
    };
    let tail = if frac == 0 {
        Seq::<char>::empty()
    } else {
        seq!['.'] + fraction(frac, (SCALE / 10) as nat)
    };
    sign + decimal(whole) + tail
}

/// The arguments of a label, separated by a comma and a space.
pub open spec fn joined(args: Seq<Seq<char>>) -> Seq<char>
    decreases args.len(),
{
    if args.len() == 0 {
        Seq::<char>::empty()
    } else if args.len() == 1 {
        args[0]
    } else {
        joined(args.drop_last()) + seq![',', ' '] + args.last()
    }
}

/// The label of an indicator: its name, then its arguments in brackets.
pub open spec fn label_text(name: Seq<char>, args: Seq<Seq<char>>) -> Seq<char> {
    name + seq!['('] + joined(args) + seq![')']
}

/// The views of a vector of strings.
pub open spec fn texts(args: Seq<String>) -> Seq<Seq<char>> {
    Seq::new(args.len(), |i: int| args[i]@)
}

fn digit_str(d: u64) -> (s: &'static str)
    requires
        d < 10,
    ensures
        s@ == seq![digit(d as int)],
{
    proof {
        reveal_strlit("0");
        reveal_strlit("1");
        reveal_strlit("2");
        reveal_strlit("3");
        reveal_strlit("4");
        reveal_strlit("5");
        reveal_strlit("6");
        reveal_strlit("7");
        reveal_strlit("8");
        reveal_strlit("9");
    }
    let s: &'static str = if d == 0 {
        "0"
    } else if d == 1 {
        "1"
    } else if d == 2 {
        "2"
    } else if d == 3 {
        "3"
    } else if d == 4 {
        "4"
    } else if d == 5 {
        "5"
    } else if d == 6 {
        "6"
    } else if d == 7 {
        "7"
    } else if d == 8 {
        "8"
    } else {
        "9"
    };
    assert(s@ =~= seq![digit(d as int)]);
    s
}

/// The decimal digits of `n`.
pub fn decimal_string(n: u64) -> (s: String)
    ensures
        s@ == decimal(n as nat),
    decreases n,
{
    if n < 10 {
        String::from_str(digit_str(n))
    } else {
        let mut s: String = decimal_string(n / 10);
        s.append(digit_str(n % 10));
        assert(s@ =~= decimal(n as nat));
        s
    }
}

fn fraction_string(frac: u64, unit: u64) -> (s: String)
    ensures
        s@ == fraction(frac as nat, unit as nat),
    decreases unit,
{
    if frac == 0 || unit == 0 {
        String::new()
    } else {
        let lead: u64 = frac / unit;
        let mut s: String = String::from_str(digit_str(if lead < 10 {
            lead
        } else {
            9
        }));
        let tail: String = fraction_string(frac % unit, unit / 10);
        s.append(tail.as_str());
        assert(s@ =~= fraction(frac as nat, unit as nat));
        s
    }
}

/// The decimal text of the fixed-point value `x`.
pub fn fixed_string(x: i64) -> (s: String)
    ensures
        s@ == fixed_text(x as int),
{
    proof {
        reveal_strlit("-");
        reveal_strlit(".");
    }
    let magnitude: u64 = if x < 0 {
        (-(x as i128)) as u64
    } else {
        x as u64
    };
    let whole: u64 = magnitude / (SCALE as u64);
    let frac: u64 = magnitude % (SCALE as u64);
    let mut s: String = if x < 0 {
        String::from_str("-")
    } else {
        String::new()
    };
    let digits: String = decimal_string(whole);
    s.append(digits.as_str());
    if frac != 0 {
        s.append(".");
        let tail: String = fraction_string(frac, (SCALE / 10) as u64);
        s.append(tail.as_str());
    }
    assert(s@ =~= fixed_text(x as int));
    s
}

/// The label made of `name` and the arguments `args`.
pub fn label(name: &str, args: &Vec<String>) -> (s: String)
    ensures
        s@ == label_text(name@, texts(args@)),
{
    proof {
        reveal_strlit("(");
        reveal_strlit(")");
        reveal_strlit(", ");
    }
    let mut s: String = String::from_str(name);
    s.append("(");
    let ghost head = s@;
    let mut i: usize = 0;
    while i < args.len()
        invariant
            i <= args.len(),
            head == name@ + seq!['('],
            s@ == head + joined(texts(args@).take(i as int)),
            ", "@ == seq![',', ' '],
            ")"@ == seq![')'],
        decreases args.len() - i,
    {
        let ghost done = texts(args@).take(i as int);
        let ghost more = texts(args@).take(i + 1);
        assert(more.drop_last() =~= done);
        assert(more.last() == args@[i as int]@);
        if i > 0 {
            s.append(", ");
        }
        s.append(args[i].as_str());
        assert(s@ =~= head + joined(more));
        i = i + 1;
    }
    assert(texts(args@).take(args.len() as int) =~= texts(args@));
    s.append(")");
    assert(s@ =~= label_text(name@, texts(args@)));
    s
}

/// The label of an indicator whose one argument is its period.
pub fn period_label(name: &str, period: usize) -> (s: String)
    ensures
        s@ == label_text(name@, seq![decimal(period as nat)]),
{
    let mut args: Vec<String> = Vec::new();
    args.push(decimal_string(period as u64));
    assert(texts(args@) =~= seq![decimal(period as nat)]);
    label(name, &args)
}

} // verus!
