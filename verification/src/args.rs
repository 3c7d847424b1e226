//! Reading positionals and flags out of an argument list.
use vstd::prelude::*;

use crate::text;

verus! {

/// The flags whose next argument is their value.
pub open spec fn is_value_flag(arg: Seq<char>) -> bool {
    ||| arg == "--root-page"@
    ||| arg == "--mount-id"@
    ||| arg == "--connection"@
    ||| arg == "--name"@
    ||| arg == "--projection"@
    ||| arg == "--helper"@
    ||| arg == "--display-name"@
    ||| arg == "--redirect-uri"@
    ||| arg == "--broker-url"@
    ||| arg == "--connector"@
    ||| arg == "--limit"@
    ||| arg == "--title"@
    ||| arg == "--parent"@
}

/// The positionals of `args`: what is left once flags, and the values of the
/// flags that take one, are dropped.
pub open spec fn positionals(args: Seq<Seq<char>>) -> Seq<Seq<char>>
    decreases args.len(),
{
    if args.len() == 0 {
        Seq::empty()
    } else if is_value_flag(args[0]) {
        if args.len() == 1 {
            Seq::empty()
        } else {
            positionals(args.skip(2))
        }
    } else if text::begins_with_char(args[0], '-') {
        positionals(args.skip(1))
    } else {
        seq![args[0]] + positionals(args.skip(1))
    }
}

/// The positional at `index`, if there are that many.
pub open spec fn positional_at(args: Seq<Seq<char>>, index: int) -> Option<Seq<char>> {
    if index < positionals(args).len() {
        Some(positionals(args)[index])
    } else {
        None
    }
}

/// Where `flag` first stands in `args`; the length of `args` if nowhere.
pub open spec fn flag_index(args: Seq<Seq<char>>, flag: Seq<char>) -> int
    decreases args.len(),
{
    if args.len() == 0 || args[0] == flag {
        0
    } else {
        1 + flag_index(args.skip(1), flag)
    }
}

/// What follows the first `flag` in `args`, unless that is a flag itself.
pub open spec fn value_of(args: Seq<Seq<char>>, flag: Seq<char>) -> Option<Seq<char>> {
    let next = flag_index(args, flag) + 1;
    if next < args.len() && !text::begins_with_char(args[next], '-') {
        Some(args[next])
    } else {
        None
    }
}

/// What follows each `flag` in `args`, in order; what follows a `flag` is not
/// looked at as a flag again. A flag with nothing behind it, or with another
/// flag behind it, gives no value.
pub open spec fn values_of(args: Seq<Seq<char>>, flag: Seq<char>) -> Seq<Seq<char>>
    decreases args.len(),
{
    if args.len() == 0 {
        Seq::empty()
    } else if args[0] == flag && args.len() > 1 && !text::begins_with_char(args[1], '-') {
        seq![args[1]] + values_of(args.skip(2), flag)
    } else {
        values_of(args.skip(1), flag)
    }
}

/// Whether `arg` is a flag whose next argument is its value.
pub fn takes_value(arg: &str) -> (r: bool)
    ensures
        r == is_value_flag(arg@),
{
    text::same_text(arg, "--root-page") || text::same_text(arg, "--mount-id")
        || text::same_text(arg, "--connection") || text::same_text(arg, "--name")
        || text::same_text(arg, "--projection") || text::same_text(arg, "--helper")
        || text::same_text(arg, "--display-name") || text::same_text(arg, "--redirect-uri")
        || text::same_text(arg, "--broker-url") || text::same_text(arg, "--connector")
        || text::same_text(arg, "--limit") || text::same_text(arg, "--title")
        || text::same_text(arg, "--parent")
}

/// All positionals, in order.
pub fn positional_args(args: &[String]) -> (r: Vec<String>)
    ensures
        text::texts(r@) == positionals(text::texts(args@)),
{
    let ghost all = text::texts(args@);
    let mut values: Vec<String> = Vec::new();
    let mut i: usize = 0;
    proof {
        assert(all.skip(0) == all);
        assert(text::texts(values@) + positionals(all) == positionals(all));
    }
    while i < args.len()
        invariant
            i <= args.len(),
            all == text::texts(args@),
            text::texts(values@) + positionals(all.skip(i as int)) == positionals(all),
        decreases args.len() - i,
    {
        let arg = &args[i];
        assert(all.skip(i as int)[0] == arg@);
        assert(all.skip(i as int).skip(1) == all.skip(i + 1));
        if takes_value(arg) {
            if args.len() - i < 2 {
                assert(positionals(all.skip(i as int)) == Seq::<Seq<char>>::empty());
                assert(text::texts(values@) == positionals(all));
                return values;
            }
            assert(all.skip(i as int).skip(2) == all.skip(i + 2));
            i += 2;
            continue;
        }
        if text::starts_with_char(arg, '-') {
            i += 1;
            continue;
        }
        let ghost before = values@;
        values.push(arg.clone());
        assert(text::texts(values@) == text::texts(before) + seq![arg@]);
        i += 1;
    }
    assert(all.skip(i as int) == Seq::<Seq<char>>::empty());
    assert(text::texts(values@) == positionals(all));
    values
}

/// The positional at `index`.
pub fn nth_positional(args: &[String], index: usize) -> (r: Option<&str>)
    ensures
        text::opt_str(r) == positional_at(text::texts(args@), index as int),
{
    let ghost all = text::texts(args@);
    let mut seen: usize = 0;
    let mut i: usize = 0;
    proof {
        assert(all.skip(0) == all);
    }
    while i < args.len()
        invariant
            i <= args.len(),
            seen <= i,
            seen <= index,
            all == text::texts(args@),
            positionals(all).len() == seen + positionals(all.skip(i as int)).len(),
            forall|k: int| #![trigger positionals(all)[k]]
                seen <= k < positionals(all).len() ==> positionals(all)[k]
                    == positionals(all.skip(i as int))[k - seen],
        decreases args.len() - i,
    {
        let arg = &args[i];
        assert(all.skip(i as int)[0] == arg@);
        assert(all.skip(i as int).skip(1) == all.skip(i + 1));
        if takes_value(arg) {
            if args.len() - i < 2 {
                return None;
            }
            assert(all.skip(i as int).skip(2) == all.skip(i + 2));
            i += 2;
            continue;
        }
        if text::starts_with_char(arg, '-') {
            i += 1;
            continue;
        }
        if seen == index {
            assert(positionals(all)[seen as int] == positionals(all.skip(i as int))[0]);
            return Some(arg.as_str());
        }
        seen += 1;
        i += 1;
    }
    None
}

/// The first positional.
pub fn first_positional(args: &[String]) -> (r: Option<&str>)
    ensures
        text::opt_str(r) == positional_at(text::texts(args@), 0),
{
    nth_positional(args, 0)
}

/// Whether `flag` stands among `args`.
pub fn has_flag(args: &[String], flag: &str) -> (r: bool)
    ensures
        r == text::texts(args@).contains(flag@),
{
    let ghost all = text::texts(args@);
    let mut i: usize = 0;
    while i < args.len()
        invariant
            i <= args.len(),
            all == text::texts(args@),
            forall|k: int| 0 <= k < i ==> all[k] != flag@,
        decreases args.len() - i,
    {
        if text::same_text(&args[i], flag) {
            assert(all[i as int] == flag@);
            return true;
        }
        i += 1;
    }
    false
}

/// The value of `flag`.
pub fn flag_value<'a>(args: &'a [String], flag: &str) -> (r: Option<&'a str>)
    ensures
        text::opt_str(r) == value_of(text::texts(args@), flag@),
{
    let ghost all = text::texts(args@);
    let mut i: usize = 0;
    proof {
        assert(all.skip(0) == all);
    }
    while i < args.len()
        invariant
            i <= args.len(),
            all == text::texts(args@),
            flag_index(all, flag@) == i + flag_index(all.skip(i as int), flag@),
        decreases args.len() - i,
    {
        assert(all.skip(i as int)[0] == args[i as int]@);
        if text::same_text(&args[i], flag) {
            if args.len() - i < 2 || text::starts_with_char(&args[i + 1], '-') {
                return None;
            }
            return Some(args[i + 1].as_str());
        }
        assert(all.skip(i as int).skip(1) == all.skip(i + 1));
        i += 1;
    }
    None
}

/// The values of `flag`, in order.
pub fn flag_values(args: &[String], flag: &str) -> (r: Vec<String>)
    ensures
        text::texts(r@) == values_of(text::texts(args@), flag@),
{
    let ghost all = text::texts(args@);
    let mut values: Vec<String> = Vec::new();
    let mut index: usize = 0;
    proof {
        assert(all.skip(0) == all);
        assert(text::texts(values@) + values_of(all, flag@) == values_of(all, flag@));
    }
    while index < args.len()
        invariant
            index <= args.len(),
            all == text::texts(args@),
            text::texts(values@) + values_of(all.skip(index as int), flag@) == values_of(all, flag@),
        decreases args.len() - index,
    {
        let ghost rest = all.skip(index as int);
        assert(rest[0] == args[index as int]@);
        assert(rest.skip(1) == all.skip(index + 1));
        if text::same_text(&args[index], flag) && args.len() - index > 1
            && !text::starts_with_char(&args[index + 1], '-') {
            assert(rest[1] == args[index + 1]@);
            assert(rest.skip(2) == all.skip(index + 2));
            let ghost before = values@;
            values.push(args[index + 1].clone());
            assert(text::texts(values@) == text::texts(before) + seq![rest[1]]);
            index += 2;
            continue;
        }
        index += 1;
    }
    assert(all.skip(index as int) == Seq::<Seq<char>>::empty());
    assert(text::texts(values@) == values_of(all, flag@));
    values
}

/// A value that cannot be taken for a flag.
pub open spec fn is_plain(value: Seq<char>) -> bool {
    !text::begins_with_char(value, '-')
}

pub proof fn lemma_value_flags_begin_with_dash(arg: Seq<char>)
    requires
        is_value_flag(arg),
    ensures
        !is_plain(arg),
{
    reveal_strlit("--root-page");
    reveal_strlit("--mount-id");
    reveal_strlit("--connection");
    reveal_strlit("--name");
    reveal_strlit("--projection");
    reveal_strlit("--helper");
    reveal_strlit("--display-name");
    reveal_strlit("--redirect-uri");
    reveal_strlit("--broker-url");
    reveal_strlit("--connector");
    reveal_strlit("--limit");
    reveal_strlit("--title");
    reveal_strlit("--parent");
}

/// A plain argument in front is the first positional.
pub proof fn lemma_positionals_plain(value: Seq<char>, rest: Seq<Seq<char>>)
    requires
        is_plain(value),
    ensures
        positionals(seq![value] + rest) == seq![value] + positionals(rest),
{
    if is_value_flag(value) {
        lemma_value_flags_begin_with_dash(value);
    }
    assert((seq![value] + rest).skip(1) == rest);
}

/// A flag without a value in front is passed over.
pub proof fn lemma_positionals_switch(flag: Seq<char>, rest: Seq<Seq<char>>)
    requires
        !is_plain(flag),
        !is_value_flag(flag),
    ensures
        positionals(seq![flag] + rest) == positionals(rest),
{
    assert((seq![flag] + rest).skip(1) == rest);
}

/// A flag with its value in front is passed over, whatever the value.
pub proof fn lemma_positionals_option(flag: Seq<char>, value: Seq<char>, rest: Seq<Seq<char>>)
    requires
        is_value_flag(flag),
    ensures
        positionals(seq![flag, value] + rest) == positionals(rest),
{
    assert((seq![flag, value] + rest).skip(2) == rest);
}

/// `flag` is looked for behind arguments that do not hold it.
pub proof fn lemma_value_of_behind(before: Seq<Seq<char>>, rest: Seq<Seq<char>>, flag: Seq<char>)
    requires
        !before.contains(flag),
    ensures
        flag_index(before + rest, flag) == before.len() + flag_index(rest, flag),
        value_of(before + rest, flag) == value_of(rest, flag),
    decreases before.len(),
{
    if before.len() == 0 {
        assert(before + rest == rest);
    } else {
        assert(before.contains(before[0]));
        assert forall|x: Seq<char>| before.skip(1).contains(x) implies before.contains(x) by {
            let i = choose|i: int| 0 <= i < before.skip(1).len() && before.skip(1)[i] == x;
            assert(before[i + 1] == x);
        }
        lemma_value_of_behind(before.skip(1), rest, flag);
        assert((before + rest).skip(1) == before.skip(1) + rest);
    }
    lemma_flag_index_bounds(rest, flag);
    let next = flag_index(rest, flag) + 1;
    if next < rest.len() {
        assert((before + rest)[before.len() + next] == rest[next]);
    }
}

pub proof fn lemma_flag_index_bounds(args: Seq<Seq<char>>, flag: Seq<char>)
    ensures
        0 <= flag_index(args, flag) <= args.len(),
        flag_index(args, flag) < args.len() ==> args[flag_index(args, flag)] == flag,
        flag_index(args, flag) == args.len() <==> !args.contains(flag),
    decreases args.len(),
{
    if args.len() > 0 && args[0] != flag {
        lemma_flag_index_bounds(args.skip(1), flag);
        if args.contains(flag) {
            let i = choose|i: int| 0 <= i < args.len() && args[i] == flag;
            assert(args.skip(1)[i - 1] == flag);
        }
        if args.skip(1).contains(flag) {
            let i = choose|i: int| 0 <= i < args.skip(1).len() && args.skip(1)[i] == flag;
            assert(args[i + 1] == flag);
        }
    } else if args.len() > 0 {
        assert(args.contains(args[0]));
    }
}

/// A flag in front has what follows it as its value.
pub proof fn lemma_value_of_first(flag: Seq<char>, value: Seq<char>, rest: Seq<Seq<char>>)
    requires
        is_plain(value),
    ensures
        value_of(seq![flag, value] + rest, flag) == Some(value),
{
    assert((seq![flag, value] + rest)[1] == value);
}

/// A flag that does not occur has no value.
pub proof fn lemma_value_of_absent(args: Seq<Seq<char>>, flag: Seq<char>)
    requires
        !args.contains(flag),
    ensures
        value_of(args, flag) is None,
{
    lemma_flag_index_bounds(args, flag);
}

} // verus!
