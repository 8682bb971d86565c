//! Turning tool arguments into the external program's command line.

use vstd::prelude::*;
use crate::json::{JsonNumber, JsonValue};
use crate::text::{
    append_str, chars_of, decimal, decimal_chars, is_white_space, signed_decimal, string_of, trim,
    trim_chars,
};

verus! {

/// The characters of each string, in order.
pub open spec fn words(v: Seq<String>) -> Seq<Seq<char>> {
    v.map_values(|s: String| s@)
}

pub open spec fn opt_view(o: Option<String>) -> Option<Seq<char>> {
    match o {
        Some(s) => Some(s@),
        None => None,
    }
}

/// The string member `key` of `args`, if it is a string.
pub open spec fn str_member(args: JsonValue, key: Seq<char>) -> Option<Seq<char>> {
    match args.spec_get(key) {
        Some(JsonValue::Str(s)) => Some(s@),
        _ => None,
    }
}

/// Whether the member `key` of `args` is `true`.
pub open spec fn flag_member(args: JsonValue, key: Seq<char>) -> bool {
    args.spec_get(key) == Some(JsonValue::Bool(true))
}

/// The member `key` of `args`, if it is a non-negative integer.
pub open spec fn u64_member(args: JsonValue, key: Seq<char>) -> Option<u64> {
    match args.spec_get(key) {
        Some(JsonValue::Number(JsonNumber::PosInt(n))) => Some(n),
        _ => None,
    }
}

/// The member `key` of `args`, if it is an integer.
pub open spec fn int_member(args: JsonValue, key: Seq<char>) -> Option<int> {
    match args.spec_get(key) {
        Some(JsonValue::Number(JsonNumber::PosInt(n))) => Some(n as int),
        Some(JsonValue::Number(JsonNumber::NegInt(n))) => Some(n as int),
        _ => None,
    }
}

/// The member `key` of `args`, if it is a number.
pub open spec fn number_member(args: JsonValue, key: Seq<char>) -> Option<JsonNumber> {
    match args.spec_get(key) {
        Some(JsonValue::Number(n)) => Some(n),
        _ => None,
    }
}

/// `flag value` when there is a value, nothing otherwise.
pub open spec fn flag_pair(flag: Seq<char>, value: Option<Seq<char>>) -> Seq<Seq<char>> {
    match value {
        Some(v) => seq![flag, v],
        None => seq![],
    }
}

/// The strings among `vs`, in order.
pub open spec fn strings_in(vs: Seq<JsonValue>) -> Seq<Seq<char>>
    decreases vs.len(),
{
    if vs.len() == 0 {
        seq![]
    } else {
        match vs.last() {
            JsonValue::Str(s) => strings_in(vs.drop_last()).push(s@),
            _ => strings_in(vs.drop_last()),
        }
    }
}

/// The member `key` as a list of strings: the strings of an array, or a single string.
pub open spec fn string_list(args: JsonValue, key: Seq<char>) -> Seq<Seq<char>> {
    match args.spec_get(key) {
        Some(JsonValue::Array(vs)) => strings_in(vs@),
        Some(JsonValue::Str(s)) => seq![s@],
        _ => seq![],
    }
}

/// The pieces of `s` between commas.
pub open spec fn comma_fields(s: Seq<char>) -> Seq<Seq<char>>
    decreases s.len(),
{
    if s.len() == 0 {
        seq![Seq::empty()]
    } else if s.last() == ',' {
        comma_fields(s.drop_last()).push(Seq::empty())
    } else {
        let f = comma_fields(s.drop_last());
        f.update(f.len() - 1, f.last().push(s.last()))
    }
}

/// The trimmed pieces that are not empty.
pub open spec fn nonblank(fields: Seq<Seq<char>>) -> Seq<Seq<char>>
    decreases fields.len(),
{
    if fields.len() == 0 {
        seq![]
    } else if trim(fields.last()).len() > 0 {
        nonblank(fields.drop_last()).push(trim(fields.last()))
    } else {
        nonblank(fields.drop_last())
    }
}

/// The names in a comma-separated list, trimmed, without empty ones.
pub open spec fn comma_names(s: Seq<char>) -> Seq<Seq<char>> {
    nonblank(comma_fields(s))
}

/// The names in each string of `vs`, in order.
pub open spec fn names_in(vs: Seq<JsonValue>) -> Seq<Seq<char>>
    decreases vs.len(),
{
    if vs.len() == 0 {
        seq![]
    } else {
        match vs.last() {
            JsonValue::Str(s) => names_in(vs.drop_last()) + comma_names(s@),
            _ => names_in(vs.drop_last()),
        }
    }
}

/// The member `key` as names: comma-separated in a string or in each string of an array.
pub open spec fn name_list(args: JsonValue, key: Seq<char>) -> Seq<Seq<char>> {
    match args.spec_get(key) {
        Some(JsonValue::Array(vs)) => names_in(vs@),
        Some(JsonValue::Str(s)) => comma_names(s@),
        _ => seq![],
    }
}

/// The message for a number outside its allowed range.
pub open spec fn range_message(key: Seq<char>, value: Seq<char>, min: nat, max: nat) -> Seq<char> {
    "Invalid argument '"@ + key + "': value "@ + value + " must be between "@ + decimal(min)
        + " and "@ + decimal(max)
}

pub proof fn lemma_comma_fields_nonempty(s: Seq<char>)
    ensures
        comma_fields(s).len() >= 1,
    decreases s.len(),
{
    if s.len() > 0 {
        lemma_comma_fields_nonempty(s.drop_last());
    }
}

/// Appends `s` to the list of strings.
pub fn push_str(cmd_args: &mut Vec<String>, s: &str)
    ensures
        words(final(cmd_args)@) == words(old(cmd_args)@).push(s@),
{
    cmd_args.push(s.to_owned());
    assert(words(cmd_args@) =~= words(old(cmd_args)@).push(s@));
}

/// Appends the string of `cs` to the list of strings.
pub fn push_chars(cmd_args: &mut Vec<String>, cs: &[char])
    ensures
        words(final(cmd_args)@) == words(old(cmd_args)@).push(cs@),
{
    cmd_args.push(string_of(cs));
    assert(words(cmd_args@) =~= words(old(cmd_args)@).push(cs@));
}

/// Appends `flag` when the member `key` of `args` is `true`.
pub fn push_flag_if(cmd_args: &mut Vec<String>, args: &JsonValue, key: &str, flag: &str)
    ensures
        words(final(cmd_args)@) == words(old(cmd_args)@) + (if flag_member(*args, key@) {
            seq![flag@]
        } else {
            seq![]
        }),
{
    let set = match args.get(key) {
        Some(v) => match v.as_bool() {
            Some(b) => b,
            None => false,
        },
        None => false,
    };
    if set {
        push_str(cmd_args, flag);
        assert(words(cmd_args@) =~= words(old(cmd_args)@) + seq![flag@]);
    } else {
        assert(words(cmd_args@) =~= words(old(cmd_args)@) + seq![]);
    }
}

/// Appends `flag value` when there is a value.
pub fn push_opt_string(cmd_args: &mut Vec<String>, flag: &str, value: Option<&str>)
    ensures
        words(final(cmd_args)@) == words(old(cmd_args)@) + flag_pair(
            flag@,
            match value {
                Some(v) => Some(v@),
                None => None,
            },
        ),
{
    match value {
        Some(v) => {
            push_str(cmd_args, flag);
            push_str(cmd_args, v);
            assert(words(cmd_args@) =~= words(old(cmd_args)@) + seq![flag@, v@]);
        },
        None => {
            assert(words(cmd_args@) =~= words(old(cmd_args)@) + seq![]);
        },
    }
}

/// The string member `key` of `args`.
pub fn str_arg<'a>(args: &'a JsonValue, key: &str) -> (r: Option<&'a str>)
    ensures
        match r {
            Some(s) => str_member(*args, key@) == Some(s@),
            None => str_member(*args, key@) is None,
        },
{
    match args.get(key) {
        Some(v) => v.as_str(),
        None => None,
    }
}

/// Appends `flag value` when the member `key` of `args` is a number.
pub fn push_opt_number(cmd_args: &mut Vec<String>, args: &JsonValue, key: &str, flag: &str)
    ensures
        words(final(cmd_args)@) == words(old(cmd_args)@) + flag_pair(
            flag@,
            match number_member(*args, key@) {
                Some(n) => Some(n.spec_text()),
                None => None,
            },
        ),
{
    match args.get(key) {
        Some(v) => match v.as_number() {
            Some(n) => {
                push_str(cmd_args, flag);
                let t = n.text_chars();
                push_chars(cmd_args, t.as_slice());
                assert(words(cmd_args@) =~= words(old(cmd_args)@) + seq![flag@, n.spec_text()]);
            },
            None => {
                assert(words(cmd_args@) =~= words(old(cmd_args)@) + seq![]);
            },
        },
        None => {
            assert(words(cmd_args@) =~= words(old(cmd_args)@) + seq![]);
        },
    }
}

/// Appends `flag value` when the member `key` of `args` is a non-negative integer.
pub fn push_opt_u64(cmd_args: &mut Vec<String>, args: &JsonValue, key: &str, flag: &str)
    ensures
        words(final(cmd_args)@) == words(old(cmd_args)@) + flag_pair(
            flag@,
            match u64_member(*args, key@) {
                Some(n) => Some(decimal(n as nat)),
                None => None,
            },
        ),
{
    let value = match args.get(key) {
        Some(v) => v.as_u64(),
        None => None,
    };
    match value {
        Some(n) => {
            push_str(cmd_args, flag);
            let t = decimal_chars(n);
            push_chars(cmd_args, t.as_slice());
            assert(words(cmd_args@) =~= words(old(cmd_args)@) + seq![flag@, decimal(n as nat)]);
        },
        None => {
            assert(words(cmd_args@) =~= words(old(cmd_args)@) + seq![]);
        },
    }
}

fn range_error(key: &str, value: Vec<char>, min: u64, max: u64) -> (r: String)
    ensures
        r@ == range_message(key@, value@, min as nat, max as nat),
{
    let mut out: Vec<char> = Vec::new();
    append_str(&mut out, "Invalid argument '");
    append_str(&mut out, key);
    append_str(&mut out, "': value ");
    let mut v = value;
    out.append(&mut v);
    append_str(&mut out, " must be between ");
    let mut lo = decimal_chars(min);
    out.append(&mut lo);
    append_str(&mut out, " and ");
    let mut hi = decimal_chars(max);
    out.append(&mut hi);
    string_of(out.as_slice())
}

/// Fails when the member `key` of `args` is a number outside `[min, max]`.
pub fn validate_number_range(args: &JsonValue, key: &str, min: u64, max: u64) -> (r: Result<(), String>)
    ensures
        match number_member(*args, key@) {
            Some(n) => if n.spec_below(min as nat) || n.spec_above(max as nat) {
                r is Err && r->Err_0@ == range_message(key@, n.spec_text(), min as nat, max as nat)
            } else {
                r is Ok
            },
            None => r is Ok,
        },
{
    match args.get(key) {
        Some(v) => match v.as_number() {
            Some(n) => {
                if n.below(min) || n.above(max) {
                    let t = n.text_chars();
                    Err(range_error(key, t, min, max))
                } else {
                    Ok(())
                }
            },
            None => Ok(()),
        },
        None => Ok(()),
    }
}

/// Fails when the member `key` of `args` is an integer outside `[min, max]`,
/// negative integers included.
pub fn validate_int_range(args: &JsonValue, key: &str, min: u64, max: u64) -> (r: Result<(), String>)
    ensures
        match int_member(*args, key@) {
            Some(n) => if n < min || n > max {
                r is Err && r->Err_0@ == range_message(key@, signed_decimal(n), min as nat, max as nat)
            } else {
                r is Ok
            },
            None => r is Ok,
        },
{
    let value = match args.get(key) {
        Some(v) => v.as_number(),
        None => None,
    };
    match value {
        Some(number) => {
            let out_of_range = match number {
                JsonNumber::PosInt(n) => *n < min || *n > max,
                JsonNumber::NegInt(n) => (*n as i128) < (min as i128) || (*n as i128) > (max as i128),
                JsonNumber::Float(_) => return Ok(()),
            };
            if out_of_range {
                let t = number.text_chars();
                proof {
                    if let JsonNumber::PosInt(n) = number {
                        assert(signed_decimal(*n as int) == decimal(*n as nat));
                    }
                }
                Err(range_error(key, t, min, max))
            } else {
                Ok(())
            }
        },
        None => Ok(()),
    }
}

fn owned(s: Option<&str>) -> (r: Option<String>)
    ensures
        opt_view(r) == match s {
            Some(v) => Some(v@),
            None => None,
        },
{
    match s {
        Some(v) => Some(v.to_owned()),
        None => None,
    }
}

fn missing_message(s: &str) -> (r: String)
    ensures
        r@ == s@,
{
    s.to_owned()
}

/// The string members `first` and `second` of `args`; fails with `missing` when neither is there.
pub fn require_either(args: &JsonValue, first: &str, second: &str, missing: &str) -> (r: Result<
    (Option<String>, Option<String>),
    String,
>)
    ensures
        match r {
            Ok((a, b)) => opt_view(a) == str_member(*args, first@) && opt_view(b) == str_member(
                *args,
                second@,
            ) && (a is Some || b is Some),
            Err(m) => str_member(*args, first@) is None && str_member(*args, second@) is None
                && m@ == missing@,
        },
{
    let a = owned(str_arg(args, first));
    let b = owned(str_arg(args, second));
    if a.is_none() && b.is_none() {
        return Err(missing_message(missing));
    }
    Ok((a, b))
}

/// The asset's `uuid` and `path`; at least one of them is required.
pub fn require_uuid_or_path(args: &JsonValue) -> (r: Result<(Option<String>, Option<String>), String>)
    ensures
        match r {
            Ok((a, b)) => opt_view(a) == str_member(*args, "uuid"@) && opt_view(b) == str_member(
                *args,
                "path"@,
            ) && (a is Some || b is Some),
            Err(m) => str_member(*args, "uuid"@) is None && str_member(*args, "path"@) is None
                && m@ == "Missing required argument: provide either 'uuid' or 'path'"@,
        },
{
    require_either(args, "uuid", "path", "Missing required argument: provide either 'uuid' or 'path'")
}

/// The folder's `folder_uuid` and `folder_path`; at least one of them is required.
pub fn require_folder_uuid_or_path(args: &JsonValue) -> (r: Result<
    (Option<String>, Option<String>),
    String,
>)
    ensures
        match r {
            Ok((a, b)) => opt_view(a) == str_member(*args, "folder_uuid"@) && opt_view(b)
                == str_member(*args, "folder_path"@) && (a is Some || b is Some),
            Err(m) => str_member(*args, "folder_uuid"@) is None && str_member(
                *args,
                "folder_path"@,
            ) is None && m@
                == "Missing required argument: provide either 'folder_uuid' or 'folder_path'"@,
        },
{
    require_either(
        args,
        "folder_uuid",
        "folder_path",
        "Missing required argument: provide either 'folder_uuid' or 'folder_path'",
    )
}

/// The member `key` as a list of strings.
pub fn parse_string_list(args: &JsonValue, key: &str) -> (r: Vec<String>)
    ensures
        words(r@) == string_list(*args, key@),
{
    let mut out: Vec<String> = Vec::new();
    match args.get(key) {
        Some(JsonValue::Array(vs)) => {
            let mut i: usize = 0;
            while i < vs.len()
                invariant
                    i <= vs@.len(),
                    words(out@) == strings_in(vs@.subrange(0, i as int)),
                decreases vs@.len() - i,
            {
                assert(vs@.subrange(0, i + 1).drop_last() =~= vs@.subrange(0, i as int));
                match &vs[i] {
                    JsonValue::Str(s) => {
                        push_str(&mut out, s.as_str());
                    },
                    _ => {},
                }
                i += 1;
            }
            assert(vs@.subrange(0, vs@.len() as int) =~= vs@);
        },
        Some(JsonValue::Str(s)) => {
            push_str(&mut out, s.as_str());
            assert(words(out@) =~= seq![s@]);
        },
        _ => {
            assert(words(out@) =~= seq![]);
        },
    }
    out
}

/// Appends the names of a comma-separated list.
pub fn push_comma_names(out: &mut Vec<String>, s: &str)
    ensures
        words(final(out)@) == words(old(out)@) + comma_names(s@),
{
    let cs = chars_of(s);
    let mut cur: Vec<char> = Vec::new();
    let mut i: usize = 0;
    proof {
        assert(cs@.subrange(0, 0) =~= Seq::<char>::empty());
        assert(comma_fields(Seq::<char>::empty()).drop_last() =~= Seq::<Seq<char>>::empty());
    }
    while i < cs.len()
        invariant
            i <= cs@.len(),
            cs@ == s@,
            comma_fields(cs@.subrange(0, i as int)).len() >= 1,
            comma_fields(cs@.subrange(0, i as int)).last() == cur@,
            words(out@) == words(old(out)@) + nonblank(
                comma_fields(cs@.subrange(0, i as int)).drop_last(),
            ),
        decreases cs@.len() - i,
    {
        let ghost p = cs@.subrange(0, i as int);
        let ghost q = cs@.subrange(0, i + 1);
        assert(q.drop_last() =~= p);
        let c = cs[i];
        if c == ',' {
            proof {
                let f = comma_fields(p);
                assert(comma_fields(q).drop_last() =~= f);
                assert(f.drop_last().push(f.last()) =~= f);
            }
            let t = trim_chars(cur.as_slice());
            if t.len() > 0 {
                push_chars(out, t.as_slice());
            }
            proof {
                let f = comma_fields(p);
                assert(nonblank(f) == if trim(f.last()).len() > 0 {
                    nonblank(f.drop_last()).push(trim(f.last()))
                } else {
                    nonblank(f.drop_last())
                });
                assert(f.drop_last().push(f.last()) =~= f);
                assert(f.drop_last().push(f.last()).drop_last() =~= f.drop_last());
                if t.len() > 0 {
                    assert(words(out@) =~= words(old(out)@) + nonblank(f));
                } else {
                    assert(words(out@) =~= words(old(out)@) + nonblank(f));
                }
            }
            cur = Vec::new();
        } else {
            proof {
                let f = comma_fields(p);
                lemma_comma_fields_nonempty(p);
                assert(comma_fields(q).drop_last() =~= f.drop_last());
            }
            cur.push(c);
        }
        i += 1;
    }
    let ghost f = comma_fields(s@);
    assert(cs@.subrange(0, cs@.len() as int) =~= cs@);
    let t = trim_chars(cur.as_slice());
    if t.len() > 0 {
        push_chars(out, t.as_slice());
    }
    proof {
        assert(f.drop_last().push(f.last()) =~= f);
        assert(nonblank(f) == if trim(f.last()).len() > 0 {
            nonblank(f.drop_last()).push(trim(f.last()))
        } else {
            nonblank(f.drop_last())
        });
        assert(words(out@) =~= words(old(out)@) + comma_names(s@));
    }
}

/// The member `key` as names: comma-separated, in a string or in each string of an array.
pub fn parse_name_list(args: &JsonValue, key: &str) -> (r: Vec<String>)
    ensures
        words(r@) == name_list(*args, key@),
{
    let mut out: Vec<String> = Vec::new();
    match args.get(key) {
        Some(JsonValue::Array(vs)) => {
            let mut i: usize = 0;
            assert(words(out@) =~= seq![]);
            while i < vs.len()
                invariant
                    i <= vs@.len(),
                    words(out@) == names_in(vs@.subrange(0, i as int)),
                decreases vs@.len() - i,
            {
                assert(vs@.subrange(0, i + 1).drop_last() =~= vs@.subrange(0, i as int));
                match &vs[i] {
                    JsonValue::Str(s) => {
                        push_comma_names(&mut out, s.as_str());
                    },
                    _ => {},
                }
                i += 1;
            }
            assert(vs@.subrange(0, vs@.len() as int) =~= vs@);
        },
        Some(JsonValue::Str(s)) => {
            assert(words(out@) =~= seq![]);
            push_comma_names(&mut out, s.as_str());
            assert(words(out@) =~= comma_names(s@));
        },
        _ => {
            assert(words(out@) =~= seq![]);
        },
    }
    out
}

/// One step in turning tool arguments into command-line words.
#[derive(Debug)]
pub enum ArgRule {
    /// A fixed word.
    Word(&'static str),
    /// The string member `key`, or `default` when it is not a string.
    WordOr { key: &'static str, default: &'static str },
    /// `flag value` when the member `key` is a string.
    OptString { key: &'static str, flag: &'static str },
    /// `flag` when the member `key` is `true`.
    Flag { key: &'static str, flag: &'static str },
    /// `flag value` when the member `key` is a number.
    OptNumber { key: &'static str, flag: &'static str },
    /// `flag value` when the member `key` is a non-negative integer.
    OptU64 { key: &'static str, flag: &'static str },
    /// Fails when the member `key` is a number outside `[min, max]`.
    NumberRange { key: &'static str, min: u64, max: u64 },
    /// Fails when the member `key` is an integer outside `[min, max]`.
    IntRange { key: &'static str, min: u64, max: u64 },
    /// `first_flag first` and `second_flag second` for the string members that are
    /// there; fails with `missing` when neither is.
    EitherOf {
        first: &'static str,
        first_flag: &'static str,
        second: &'static str,
        second_flag: &'static str,
        missing: &'static str,
    },
    /// `flag value` for the string member `key`, or else `fallback`; fails with
    /// `missing` when neither is there.
    Required {
        key: &'static str,
        fallback: Option<&'static str>,
        flag: &'static str,
        missing: &'static str,
    },
    /// `flag item` for each string of the member `key`; fails with `missing` when there is none.
    EachOf { key: &'static str, flag: &'static str, missing: &'static str },
    /// `flag name` for each comma-separated name in the member `key`; fails with
    /// `missing` when there is none.
    EachName { key: &'static str, flag: &'static str, missing: &'static str },
}

/// `flag item` for each item, in order.
pub open spec fn interleave(flag: Seq<char>, items: Seq<Seq<char>>) -> Seq<Seq<char>>
    decreases items.len(),
{
    if items.len() == 0 {
        seq![]
    } else {
        interleave(flag, items.drop_last()) + seq![flag, items.last()]
    }
}

pub open spec fn or_else(a: Option<Seq<char>>, b: Option<Seq<char>>) -> Option<Seq<char>> {
    match a {
        Some(v) => Some(v),
        None => b,
    }
}

/// The words that one rule contributes, or the message it fails with.
pub open spec fn rule_words(rule: ArgRule, args: JsonValue) -> Result<Seq<Seq<char>>, Seq<char>> {
    match rule {
        ArgRule::Word(w) => Ok(seq![w@]),
        ArgRule::WordOr { key, default } => Ok(
            seq![
                match str_member(args, key@) {
                    Some(v) => v,
                    None => default@,
                },
            ],
        ),
        ArgRule::OptString { key, flag } => Ok(flag_pair(flag@, str_member(args, key@))),
        ArgRule::Flag { key, flag } => Ok(
            if flag_member(args, key@) {
                seq![flag@]
            } else {
                seq![]
            },
        ),
        ArgRule::OptNumber { key, flag } => Ok(
            flag_pair(
                flag@,
                match number_member(args, key@) {
                    Some(n) => Some(n.spec_text()),
                    None => None,
                },
            ),
        ),
        ArgRule::OptU64 { key, flag } => Ok(
            flag_pair(
                flag@,
                match u64_member(args, key@) {
                    Some(n) => Some(decimal(n as nat)),
                    None => None,
                },
            ),
        ),
        ArgRule::NumberRange { key, min, max } => match number_member(args, key@) {
            Some(n) => if n.spec_below(min as nat) || n.spec_above(max as nat) {
                Err(range_message(key@, n.spec_text(), min as nat, max as nat))
            } else {
                Ok(seq![])
            },
            None => Ok(seq![]),
        },
        ArgRule::IntRange { key, min, max } => match int_member(args, key@) {
            Some(n) => if n < min || n > max {
                Err(range_message(key@, signed_decimal(n), min as nat, max as nat))
            } else {
                Ok(seq![])
            },
            None => Ok(seq![]),
        },
        ArgRule::EitherOf { first, first_flag, second, second_flag, missing } => {
            let a = str_member(args, first@);
            let b = str_member(args, second@);
            if a is None && b is None {
                Err(missing@)
            } else {
                Ok(flag_pair(first_flag@, a) + flag_pair(second_flag@, b))
            }
        },
        ArgRule::Required { key, fallback, flag, missing } => {
            let v = or_else(
                str_member(args, key@),
                match fallback {
                    Some(f) => str_member(args, f@),
                    None => None,
                },
            );
            match v {
                Some(v) => Ok(seq![flag@, v]),
                None => Err(missing@),
            }
        },
        ArgRule::EachOf { key, flag, missing } => {
            let items = string_list(args, key@);
            if items.len() == 0 {
                Err(missing@)
            } else {
                Ok(interleave(flag@, items))
            }
        },
        ArgRule::EachName { key, flag, missing } => {
            let items = name_list(args, key@);
            if items.len() == 0 {
                Err(missing@)
            } else {
                Ok(interleave(flag@, items))
            }
        },
    }
}

/// The words of all rules in order, or the message of the first rule that fails.
pub open spec fn rules_words(rules: Seq<ArgRule>, args: JsonValue) -> Result<Seq<Seq<char>>, Seq<char>>
    decreases rules.len(),
{
    if rules.len() == 0 {
        Ok(seq![])
    } else {
        match rule_words(rules[0], args) {
            Err(m) => Err(m),
            Ok(w) => match rules_words(rules.drop_first(), args) {
                Err(m) => Err(m),
                Ok(rest) => Ok(w + rest),
            },
        }
    }
}

/// Appends `flag item` for each item.
fn push_each(cmd_args: &mut Vec<String>, flag: &str, items: &Vec<String>)
    ensures
        words(final(cmd_args)@) == words(old(cmd_args)@) + interleave(flag@, words(items@)),
{
    let mut i: usize = 0;
    assert(words(cmd_args@) =~= words(old(cmd_args)@) + interleave(flag@, words(items@.subrange(0, 0))));
    while i < items.len()
        invariant
            i <= items@.len(),
            words(cmd_args@) == words(old(cmd_args)@) + interleave(
                flag@,
                words(items@.subrange(0, i as int)),
            ),
        decreases items@.len() - i,
    {
        let ghost before = words(cmd_args@);
        push_str(cmd_args, flag);
        push_str(cmd_args, items[i].as_str());
        proof {
            let w = words(items@.subrange(0, i + 1));
            assert(w.drop_last() =~= words(items@.subrange(0, i as int)));
            assert(w.last() == items@[i as int]@);
            assert(words(cmd_args@) =~= words(old(cmd_args)@) + interleave(flag@, w));
        }
        i += 1;
    }
    assert(items@.subrange(0, items@.len() as int) =~= items@);
}

fn as_deref(o: &Option<String>) -> (r: Option<&str>)
    ensures
        match r {
            Some(s) => opt_view(*o) == Some(s@),
            None => o is None,
        },
{
    match o {
        Some(s) => Some(s.as_str()),
        None => None,
    }
}

/// Applies one rule: appends its words, or fails with its message.
pub fn apply_rule(rule: &ArgRule, args: &JsonValue, cmd_args: &mut Vec<String>) -> (r: Result<(), String>)
    ensures
        match rule_words(*rule, *args) {
            Ok(w) => r is Ok && words(final(cmd_args)@) == words(old(cmd_args)@) + w,
            Err(m) => r is Err && r->Err_0@ == m,
        },
{
    match rule {
        ArgRule::Word(w) => {
            push_str(cmd_args, w);
            assert(words(cmd_args@) =~= words(old(cmd_args)@) + seq![w@]);
            Ok(())
        },
        ArgRule::WordOr { key, default } => {
            match str_arg(args, key) {
                Some(v) => push_str(cmd_args, v),
                None => push_str(cmd_args, default),
            }
            assert(words(cmd_args@) =~= words(old(cmd_args)@) + rule_words(*rule, *args)->Ok_0);
            Ok(())
        },
        ArgRule::OptString { key, flag } => {
            push_opt_string(cmd_args, flag, str_arg(args, key));
            Ok(())
        },
        ArgRule::Flag { key, flag } => {
            push_flag_if(cmd_args, args, key, flag);
            Ok(())
        },
        ArgRule::OptNumber { key, flag } => {
            push_opt_number(cmd_args, args, key, flag);
            Ok(())
        },
        ArgRule::OptU64 { key, flag } => {
            push_opt_u64(cmd_args, args, key, flag);
            Ok(())
        },
        ArgRule::NumberRange { key, min, max } => {
            let r = validate_number_range(args, key, *min, *max);
            assert(words(cmd_args@) =~= words(old(cmd_args)@) + seq![]);
            r
        },
        ArgRule::IntRange { key, min, max } => {
            let r = validate_int_range(args, key, *min, *max);
            assert(words(cmd_args@) =~= words(old(cmd_args)@) + seq![]);
            r
        },
        ArgRule::EitherOf { first, first_flag, second, second_flag, missing } => {
            let (a, b) = require_either(args, first, second, missing)?;
            push_opt_string(cmd_args, first_flag, as_deref(&a));
            push_opt_string(cmd_args, second_flag, as_deref(&b));
            assert(words(cmd_args@) =~= words(old(cmd_args)@) + rule_words(*rule, *args)->Ok_0);
            Ok(())
        },
        ArgRule::Required { key, fallback, flag, missing } => {
            let v = match str_arg(args, key) {
                Some(v) => Some(v),
                None => match fallback {
                    Some(f) => str_arg(args, f),
                    None => None,
                },
            };
            match v {
                Some(v) => {
                    push_str(cmd_args, flag);
                    push_str(cmd_args, v);
                    assert(words(cmd_args@) =~= words(old(cmd_args)@) + seq![flag@, v@]);
                    Ok(())
                },
                None => Err(missing_message(missing)),
            }
        },
        ArgRule::EachOf { key, flag, missing } => {
            let items = parse_string_list(args, key);
            if items.len() == 0 {
                return Err(missing_message(missing));
            }
            push_each(cmd_args, flag, &items);
            Ok(())
        },
        ArgRule::EachName { key, flag, missing } => {
            let items = parse_name_list(args, key);
            if items.len() == 0 {
                return Err(missing_message(missing));
            }
            push_each(cmd_args, flag, &items);
            Ok(())
        },
    }
}

/// The command-line words that `rules` make of `args`, or the first failure.
pub fn build_command(rules: &Vec<ArgRule>, args: &JsonValue) -> (r: Result<Vec<String>, String>)
    ensures
        match rules_words(rules@, *args) {
            Ok(w) => r is Ok && words(r->Ok_0@) == w,
            Err(m) => r is Err && r->Err_0@ == m,
        },
{
    let mut out: Vec<String> = Vec::new();
    let mut i: usize = 0;
    assert(rules@.subrange(0, rules@.len() as int) =~= rules@);
    assert(words(out@) =~= seq![]);
    while i < rules.len()
        invariant
            i <= rules@.len(),
            rules_words(rules@, *args) == match rules_words(rules@.subrange(i as int, rules@.len() as int), *args) {
                Ok(rest) => Ok(words(out@) + rest),
                Err(m) => Err(m),
            },
        decreases rules@.len() - i,
    {
        let ghost tail = rules@.subrange(i as int, rules@.len() as int);
        let ghost before = words(out@);
        assert(tail[0] == rules@[i as int]);
        assert(tail.drop_first() =~= rules@.subrange(i + 1, rules@.len() as int));
        let r = apply_rule(&rules[i], args, &mut out);
        match r {
            Err(m) => {
                return Err(m);
            },
            Ok(()) => {
                proof {
                    let w = rule_words(rules@[i as int], *args)->Ok_0;
                    match rules_words(tail.drop_first(), *args) {
                        Ok(rest) => {
                            assert(before + (w + rest) =~= (before + w) + rest);
                        },
                        Err(_) => {},
                    }
                }
            },
        }
        i += 1;
    }
    assert(rules@.subrange(i as int, rules@.len() as int) =~= Seq::<ArgRule>::empty());
    assert(words(out@) + seq![] =~= words(out@));
    Ok(out)
}

} // verus!
