//! What holds of the configuration across reading and writing: a table written back is
//! read again as the same table, and replacing a hotkey keeps a table that can be.

use vstd::prelude::*;

use crate::config::{
    binding_of_text, binding_text, config_from, config_line, config_text, highest_below,
    is_listing, last_number,
    listed_values, map_of_lines, number_text, parse_config, parse_line, spec_hotkey_id,
    rebound, texts_by_action, writes_table, HotkeyBinding,
};
use crate::hotkey_action::{action_number, action_of_number, HotkeyAction};
use crate::keys::{
    code_debug_name, code_is_stable, is_name_char, is_plain_name, lemma_code_debug_name_plain,
    lemma_modifier_debug_name_plain, lemma_modifier_read_back, modifier_debug_name,
};
use crate::text::{
    digits_value, lemma_split_first, lemma_split_whole, parsed_i32, split,
};

verus! {

/// Whether the character `c` occurs nowhere in `s`.
pub open spec fn lacks(s: Seq<char>, c: char) -> bool {
    forall|i: int| 0 <= i < s.len() ==> s[i] != c
}

/// A name is free of spaces, semicolons and line breaks.
pub proof fn lemma_plain_name_lacks(s: Seq<char>)
    requires
        is_plain_name(s),
    ensures
        lacks(s, ' '),
        lacks(s, ';'),
        lacks(s, '\n'),
{
    assert forall|i: int| 0 <= i < s.len() implies s[i] != ' ' && s[i] != ';' && s[i] != '\n' by {
        assert(is_name_char(s[i]));
    }
}

/// The text of a hotkey holds neither a semicolon nor a line break.
pub proof fn lemma_binding_text_lacks(b: HotkeyBinding)
    ensures
        lacks(binding_text(b), ';'),
        lacks(binding_text(b), '\n'),
{
    reveal_strlit(" + ");
    lemma_code_debug_name_plain(b.1);
    lemma_plain_name_lacks(code_debug_name(b.1));
    match b.0 {
        Some(m) => {
            lemma_modifier_debug_name_plain(m);
            lemma_plain_name_lacks(modifier_debug_name(m));
            let s = binding_text(b);
            let p = modifier_debug_name(m) + " + "@;
            assert forall|i: int| 0 <= i < s.len() implies s[i] != ';' && s[i] != '\n' by {
                if i < modifier_debug_name(m).len() {
                    assert(s[i] == modifier_debug_name(m)[i]);
                } else if i < p.len() {
                    assert(s[i] == " + "@[i - modifier_debug_name(m).len()]);
                } else {
                    assert(s[i] == code_debug_name(b.1)[i - p.len()]);
                }
            }
        },
        None => {},
    }
}

/// Reading the text of a hotkey whose key code is stable gives back the hotkey.
pub proof fn lemma_binding_read_back(b: HotkeyBinding)
    requires
        code_is_stable(b.1),
    ensures
        binding_of_text(binding_text(b)) == Some(b),
{
    reveal_strlit(" + ");
    let c = code_debug_name(b.1);
    lemma_code_debug_name_plain(b.1);
    lemma_plain_name_lacks(c);
    lemma_split_whole(c, " + "@);
    match b.0 {
        Some(m) => {
            let n = modifier_debug_name(m);
            lemma_modifier_debug_name_plain(m);
            lemma_plain_name_lacks(n);
            lemma_split_first(n, " + "@, c);
            lemma_modifier_read_back(m);
            assert(split(binding_text(b), " + "@) =~= seq![n, c]);
        },
        None => {},
    }
}

/// The digit of an action number is read back as the number.
pub proof fn lemma_number_text(k: i32)
    requires
        0 <= k <= 6,
    ensures
        parsed_i32(number_text(k)) == Some(k),
        number_text(k).len() == 1,
        lacks(number_text(k), ';'),
        lacks(number_text(k), '\n'),
{
    reveal_strlit("0");
    reveal_strlit("1");
    reveal_strlit("2");
    reveal_strlit("3");
    reveal_strlit("4");
    reveal_strlit("5");
    reveal_strlit("6");
    let s = number_text(k);
    assert(s.drop_last().len() == 0);
    assert(digits_value(s.drop_last()) == 0);
    assert(digits_value(s) == k);
}

/// The line `number;text` of a configuration.
pub open spec fn line_body(k: int, text: Seq<char>) -> Seq<char> {
    number_text(k as i32) + ";"@ + text
}

/// A line written for an action number and a hotkey whose key code is stable is read
/// back as that action, that text and that hotkey.
pub proof fn lemma_line_read_back(k: int, b: HotkeyBinding)
    requires
        0 <= k <= 6,
        code_is_stable(b.1),
    ensures
        parse_line(line_body(k, binding_text(b))) == Some(
            (action_of_number(k as i32)->0, binding_text(b), b),
        ),
        lacks(line_body(k, binding_text(b)), '\n'),
{
    reveal_strlit(";");
    let t = binding_text(b);
    let d = number_text(k as i32);
    lemma_number_text(k as i32);
    lemma_binding_text_lacks(b);
    lemma_split_whole(t, ";"@);
    lemma_split_first(d, ";"@, t);
    assert(split(line_body(k, t), ";"@) =~= seq![d, t]);
    lemma_binding_read_back(b);
    let s = line_body(k, t);
    assert forall|i: int| 0 <= i < s.len() implies s[i] != '\n' by {
        if i < 1 {
            assert(s[i] == d[i]);
        } else if i < 2 {
            assert(s[i] == ';');
        } else {
            assert(s[i] == t[i - 2]);
        }
    }
}

/// Two texts free of a character joined are free of it.
proof fn lemma_lacks_concat(a: Seq<char>, b: Seq<char>, c: char)
    requires
        lacks(a, c),
        lacks(b, c),
    ensures
        lacks(a + b, c),
{
    assert forall|i: int| 0 <= i < (a + b).len() implies (a + b)[i] != c by {
        if i < a.len() {
            assert((a + b)[i] == a[i]);
        } else {
            assert((a + b)[i] == b[i - a.len()]);
        }
    }
}

/// With the entries' actions all different, the text of each entry's action number is
/// the text of its hotkey, and no other number has a text.
proof fn lemma_texts_by_action(entries: Seq<(HotkeyBinding, HotkeyAction)>)
    requires
        forall|i: int, j: int| 0 <= i < j < entries.len() ==> entries[i].1 != entries[j].1,
    ensures
        forall|i: int|
            0 <= i < entries.len() ==> #[trigger] texts_by_action(entries).contains_key(
                action_number(entries[i].1),
            ) && texts_by_action(entries)[action_number(entries[i].1)] == binding_text(
                entries[i].0,
            ),
        forall|k: i32| #[trigger]
            texts_by_action(entries).contains_key(k) ==> exists|i: int|
                0 <= i < entries.len() && action_number(entries[i].1) == k,
    decreases entries.len(),
{
    if entries.len() > 0 {
        let rest = entries.drop_last();
        lemma_texts_by_action(rest);
        let t = texts_by_action(entries);
        let last = entries.last();
        assert forall|i: int| 0 <= i < entries.len() implies #[trigger] t.contains_key(
            action_number(entries[i].1),
        ) && t[action_number(entries[i].1)] == binding_text(entries[i].0) by {
            if i < entries.len() - 1 {
                assert(entries[i] == rest[i]);
                assert(entries[i].1 != last.1);
                assert(texts_by_action(rest).contains_key(action_number(rest[i].1)));
            }
        }
        assert forall|k: i32| #[trigger] t.contains_key(k) implies exists|i: int|
            0 <= i < entries.len() && action_number(entries[i].1) == k by {
            if k != action_number(last.1) {
                assert(texts_by_action(rest).contains_key(k));
                let i = choose|i: int| 0 <= i < rest.len() && action_number(rest[i].1) == k;
                assert(entries[i] == rest[i]);
            } else {
                assert(action_number(entries[entries.len() - 1].1) == k);
            }
        }
    }
}

/// The highest number below `k` with a text has a text, and no number between it and `k` has one.
proof fn lemma_highest_below(t: Map<i32, Seq<char>>, k: int)
    requires
        0 <= k <= 7,
    ensures
        highest_below(t, k) == -1 || (0 <= highest_below(t, k) < k && t.contains_key(
            highest_below(t, k) as i32,
        )),
        forall|j: int| highest_below(t, k) < j < k && 0 <= j ==> !#[trigger] t.contains_key(j as i32),
    decreases k,
{
    if k > 0 && !t.contains_key((k - 1) as i32) {
        lemma_highest_below(t, k - 1);
    }
}

/// The numbers from `k` to 6 that `t` holds a text for, in increasing order.
pub open spec fn numbers_from(t: Map<i32, Seq<char>>, k: int) -> Seq<int>
    decreases 7 - k,
{
    if k < 0 || k >= 7 {
        seq![]
    } else if t.contains_key(k as i32) {
        seq![k] + numbers_from(t, k + 1)
    } else {
        numbers_from(t, k + 1)
    }
}

/// The numbers from `k` on are exactly those from `k` to 6 with a text, in increasing order.
proof fn lemma_numbers_from(t: Map<i32, Seq<char>>, k: int)
    requires
        0 <= k,
    ensures
        forall|q: int|
            0 <= q < numbers_from(t, k).len() ==> k <= #[trigger] numbers_from(t, k)[q] < 7
                && t.contains_key(numbers_from(t, k)[q] as i32),
        forall|q1: int, q2: int|
            0 <= q1 < q2 < numbers_from(t, k).len() ==> numbers_from(t, k)[q1] < numbers_from(
                t,
                k,
            )[q2],
        forall|j: int|
            k <= j < 7 && #[trigger] t.contains_key(j as i32) ==> numbers_from(t, k).contains(j),
    decreases 7 - k,
{
    if k < 7 {
        lemma_numbers_from(t, k + 1);
        let rest = numbers_from(t, k + 1);
        if t.contains_key(k as i32) {
            let all = numbers_from(t, k);
            assert forall|q: int| 0 < q < all.len() implies all[q] == rest[q - 1] by {}
            assert forall|j: int| k <= j < 7 && #[trigger] t.contains_key(j as i32) implies all.contains(
                j,
            ) by {
                if j == k {
                    assert(all[0] == k);
                } else {
                    assert(rest.contains(j));
                    let q = choose|q: int| 0 <= q < rest.len() && rest[q] == j;
                    assert(all[q + 1] == j);
                }
            }
        }
    }
}

/// With no text from `k` to 6, nothing is written from `k` on.
proof fn lemma_config_from_none(t: Map<i32, Seq<char>>, k: int)
    requires
        forall|j: int| k <= j < 7 ==> !#[trigger] t.contains_key(j as i32),
    ensures
        config_from(t, k) == Seq::<char>::empty(),
        numbers_from(t, k) == Seq::<int>::empty(),
    decreases 7 - k,
{
    if 0 <= k < 7 {
        assert(!t.contains_key(k as i32));
        lemma_config_from_none(t, k + 1);
    }
}

/// With texts free of line breaks for numbers in `0..7` only, the lines written from `k` on,
/// where `k` is at most the highest number, are cut at line breaks into their bodies.
proof fn lemma_split_config(t: Map<i32, Seq<char>>, k: int)
    requires
        0 <= k <= last_number(t),
        forall|j: i32| #[trigger] t.contains_key(j) ==> 0 <= j < 7 && lacks(t[j], '\n'),
    ensures
        split(config_from(t, k), "\n"@) == numbers_from(t, k).map_values(
            |j: int| line_body(j, t[j as i32]),
        ),
    decreases 7 - k,
{
    reveal_strlit("\n");
    reveal_strlit(";");
    lemma_highest_below(t, 7);
    let last = last_number(t);
    if !t.contains_key(k as i32) {
        lemma_split_config(t, k + 1);
    } else {
        let body = line_body(k, t[k as i32]);
        lemma_number_text(k as i32);
        assert(lacks(";"@, '\n'));
        lemma_lacks_concat(number_text(k as i32), ";"@, '\n');
        lemma_lacks_concat(number_text(k as i32) + ";"@, t[k as i32], '\n');
        let f = |j: int| line_body(j, t[j as i32]);
        if k == last {
            lemma_config_from_none(t, k + 1);
            assert(config_line(t, k) =~= body);
            assert(config_from(t, k) =~= body);
            lemma_split_whole(body, "\n"@);
            assert(numbers_from(t, k) =~= seq![k]);
            assert(numbers_from(t, k).map_values(f) =~= seq![body]);
        } else {
            lemma_split_config(t, k + 1);
            let rest = config_from(t, k + 1);
            assert(config_from(t, k) =~= body + "\n"@ + rest);
            lemma_split_first(body, "\n"@, rest);
            assert(numbers_from(t, k).map_values(f) =~= seq![body] + numbers_from(t, k + 1).map_values(f));
        }
    }
}

/// The id under which a configuration line's hotkey is entered.
pub open spec fn line_id(l: (HotkeyAction, Seq<char>, HotkeyBinding)) -> u32 {
    spec_hotkey_id(l.2.0, l.2.1)
}

/// Lines whose hotkeys have different ids give a table that holds each line under its id
/// and nothing else.
proof fn lemma_map_of_lines(lines: Seq<(HotkeyAction, Seq<char>, HotkeyBinding)>)
    requires
        forall|i: int, j: int| 0 <= i < j < lines.len() ==> line_id(lines[i]) != line_id(lines[j]),
    ensures
        forall|i: int|
            0 <= i < lines.len() ==> #[trigger] map_of_lines(lines).contains_key(line_id(lines[i]))
                && map_of_lines(lines)[line_id(lines[i])] == (lines[i].2, lines[i].0),
        forall|x: u32| #[trigger]
            map_of_lines(lines).contains_key(x) ==> exists|i: int|
                0 <= i < lines.len() && line_id(lines[i]) == x,
    decreases lines.len(),
{
    if lines.len() > 0 {
        let rest = lines.drop_last();
        lemma_map_of_lines(rest);
        let m = map_of_lines(lines);
        let last = lines.last();
        assert forall|i: int| 0 <= i < lines.len() implies #[trigger] m.contains_key(
            line_id(lines[i]),
        ) && m[line_id(lines[i])] == (lines[i].2, lines[i].0) by {
            if i < lines.len() - 1 {
                assert(lines[i] == rest[i]);
                assert(map_of_lines(rest).contains_key(line_id(rest[i])));
            }
        }
        assert forall|x: u32| #[trigger] m.contains_key(x) implies exists|i: int|
            0 <= i < lines.len() && line_id(lines[i]) == x by {
            if x != line_id(last) {
                assert(map_of_lines(rest).contains_key(x));
                let i = choose|i: int| 0 <= i < rest.len() && line_id(rest[i]) == x;
                assert(lines[i] == rest[i]);
            } else {
                assert(line_id(lines[lines.len() - 1]) == x);
            }
        }
    }
}

/// Every key of the table is the id of the hotkey stored under it.
pub open spec fn keyed_by_id(m: Map<u32, (HotkeyBinding, HotkeyAction)>) -> bool {
    forall|id: u32| #[trigger] m.contains_key(id) ==> spec_hotkey_id(m[id].0.0, m[id].0.1) == id
}

/// No two hotkeys of the table carry the same action.
pub open spec fn actions_distinct(m: Map<u32, (HotkeyBinding, HotkeyAction)>) -> bool {
    forall|a: u32, b: u32|
        #[trigger] m.contains_key(a) && #[trigger] m.contains_key(b) && a != b ==> m[a].1 != m[b].1
}

/// Whether some hotkey of the table carries the action numbered `k`.
pub open spec fn number_taken(m: Map<u32, (HotkeyBinding, HotkeyAction)>, k: int) -> bool {
    exists|id: u32| #[trigger] m.contains_key(id) && action_number(m[id].1) == k
}

/// Every key code of the table is read back as itself from the name it is written under.
pub open spec fn codes_stable(m: Map<u32, (HotkeyBinding, HotkeyAction)>) -> bool {
    forall|id: u32| #[trigger] m.contains_key(id) ==> code_is_stable(m[id].0.1)
}

/// A table that the configuration can hold: finite and non-empty, keyed by its hotkeys'
/// ids, with one hotkey per action, and every key code written under a name that is read
/// back as that code.
pub open spec fn table_sound(m: Map<u32, (HotkeyBinding, HotkeyAction)>) -> bool {
    &&& m.dom().finite()
    &&& m.dom().len() > 0
    &&& keyed_by_id(m)
    &&& actions_distinct(m)
    &&& codes_stable(m)
}

/// The key of the table's hotkey for action number `k`.
pub open spec fn key_for_number(m: Map<u32, (HotkeyBinding, HotkeyAction)>, k: int) -> u32 {
    choose|id: u32| m.contains_key(id) && action_number(m[id].1) == k
}

/// A sound table written back as a configuration, in whatever order its entries are met,
/// is read again as the same table: every line can be read, and its lines, entered under
/// their hotkeys' ids, rebuild the table.
pub proof fn lemma_config_round_trip(text: Seq<char>, m: Map<u32, (HotkeyBinding, HotkeyAction)>)
    requires
        table_sound(m),
        writes_table(text, m),
    ensures
        parse_config(text) matches Some(lines) && map_of_lines(lines) == m,
{
    let v = choose|v: Seq<(u32, (HotkeyBinding, HotkeyAction))>|
        is_listing(v, m) && text == config_text(texts_by_action(listed_values(v)));
    let entries = listed_values(v);
    let t = texts_by_action(entries);
    assert forall|i: int, j: int| 0 <= i < j < entries.len() implies entries[i].1
        != entries[j].1 by {
        assert(m.contains_key(v[i].0) && m.contains_key(v[j].0));
    }
    lemma_texts_by_action(entries);
    // every number with a text is that of an action of the table
    assert forall|j: i32| #[trigger] t.contains_key(j) implies number_taken(m, j as int) && 0 <= j
        < 7 && lacks(t[j], '\n') by {
        let i = choose|i: int| 0 <= i < entries.len() && action_number(entries[i].1) == j;
        assert(m.contains_key(v[i].0));
        assert(entries[i] == v[i].1);
        lemma_binding_text_lacks(entries[i].0);
    }
    // every action of the table has a text
    assert forall|id: u32| #[trigger] m.contains_key(id) implies t.contains_key(
        action_number(m[id].1),
    ) by {
        let i = choose|i: int| 0 <= i < v.len() && v[i].0 == id;
        assert(entries[i] == v[i].1);
        assert(t.contains_key(action_number(entries[i].1)));
    }
    let some_id = m.dom().choose();
    assert(m.contains_key(some_id));
    let k0 = action_number(m[some_id].1) as int;
    assert(t.contains_key(k0 as i32));
    lemma_highest_below(t, 7);
    assert(0 <= last_number(t));
    lemma_split_config(t, 0);
    lemma_numbers_from(t, 0);
    let nums = numbers_from(t, 0);
    let bodies = split(text, "\n"@);
    assert(bodies == nums.map_values(|j: int| line_body(j, t[j as i32])));
    let lines = Seq::new(
        nums.len(),
        |q: int|
            (
                m[key_for_number(m, nums[q])].1,
                t[nums[q] as i32],
                m[key_for_number(m, nums[q])].0,
            ),
    );
    assert forall|q: int| 0 <= q < nums.len() implies #[trigger] parse_line(bodies[q]) == Some(
        lines[q],
    ) by {
        let k = nums[q];
        assert(t.contains_key(k as i32));
        assert(number_taken(m, k));
        let id = key_for_number(m, k);
        assert(m.contains_key(id) && action_number(m[id].1) == k);
        let i = choose|i: int| 0 <= i < v.len() && v[i].0 == id;
        assert(entries[i] == v[i].1);
        assert(t.contains_key(action_number(entries[i].1)));
        assert(t[k as i32] == binding_text(m[id].0));
        assert(bodies[q] == line_body(k, t[k as i32]));
        lemma_line_read_back(k, m[id].0);
    }
    assert(parse_config(text) == Some(lines)) by {
        assert forall|q: int| 0 <= q < bodies.len() implies (#[trigger] parse_line(bodies[q])) is Some by {
            assert(parse_line(bodies[q]) == Some(lines[q]));
        }
        assert(Seq::new(bodies.len(), |q: int| parse_line(bodies[q])->0) =~= lines);
    }
    assert forall|i: int, j: int| 0 <= i < j < lines.len() implies line_id(lines[i]) != line_id(
        lines[j],
    ) by {
        let a = key_for_number(m, nums[i]);
        let b = key_for_number(m, nums[j]);
        assert(t.contains_key(nums[i] as i32) && t.contains_key(nums[j] as i32));
        assert(number_taken(m, nums[i]) && number_taken(m, nums[j]));
        assert(m.contains_key(a) && action_number(m[a].1) == nums[i]);
        assert(m.contains_key(b) && action_number(m[b].1) == nums[j]);
        assert(line_id(lines[i]) == a);
        assert(line_id(lines[j]) == b);
    }
    lemma_map_of_lines(lines);
    let r = map_of_lines(lines);
    assert forall|id: u32| #[trigger] r.contains_key(id) <==> m.contains_key(id) by {
        if r.contains_key(id) {
            let q = choose|q: int| 0 <= q < lines.len() && line_id(lines[q]) == id;
            let a = key_for_number(m, nums[q]);
            assert(t.contains_key(nums[q] as i32));
            assert(number_taken(m, nums[q]));
            assert(m.contains_key(a) && action_number(m[a].1) == nums[q]);
        }
        if m.contains_key(id) {
            let k = action_number(m[id].1) as int;
            assert(t.contains_key(k as i32));
            assert(nums.contains(k));
            let q = choose|q: int| 0 <= q < nums.len() && nums[q] == k;
            let a = key_for_number(m, k);
            assert(number_taken(m, k));
            assert(m.contains_key(a) && action_number(m[a].1) == k);
            assert(a == id);
            assert(line_id(lines[q]) == id);
            assert(r.contains_key(line_id(lines[q])));
        }
    }
    assert forall|id: u32| #[trigger] m.contains_key(id) implies r[id] == m[id] by {
        let k = action_number(m[id].1) as int;
        assert(t.contains_key(k as i32));
        assert(nums.contains(k));
        let q = choose|q: int| 0 <= q < nums.len() && nums[q] == k;
        let a = key_for_number(m, k);
        assert(number_taken(m, k));
        assert(m.contains_key(a) && action_number(m[a].1) == k);
        assert(a == id);
        assert(line_id(lines[q]) == id);
        assert(r.contains_key(line_id(lines[q])));
    }
    assert(r =~= m);
}

/// A table read from configuration lines is finite and keyed by its hotkeys' ids.
pub proof fn lemma_lines_keyed_by_id(lines: Seq<(HotkeyAction, Seq<char>, HotkeyBinding)>)
    ensures
        map_of_lines(lines).dom().finite(),
        keyed_by_id(map_of_lines(lines)),
    decreases lines.len(),
{
    if lines.len() > 0 {
        lemma_lines_keyed_by_id(lines.drop_last());
    }
}

/// Replacing a hotkey of a sound table by one whose id no other hotkey of the table has,
/// and whose key code reads back, keeps the table sound and of the same size.
pub proof fn lemma_rebind_keeps_sound(
    m: Map<u32, (HotkeyBinding, HotkeyAction)>,
    new: HotkeyBinding,
    old: HotkeyBinding,
)
    requires
        table_sound(m),
        m.contains_key(spec_hotkey_id(old.0, old.1)),
        spec_hotkey_id(new.0, new.1) == spec_hotkey_id(old.0, old.1) || !m.contains_key(
            spec_hotkey_id(new.0, new.1),
        ),
        code_is_stable(new.1),
    ensures
        table_sound(rebound(m, new, old)),
        rebound(m, new, old).dom().len() == m.dom().len(),
{
    let old_id = spec_hotkey_id(old.0, old.1);
    let new_id = spec_hotkey_id(new.0, new.1);
    let r = rebound(m, new, old);
    let n = m.dom().len();
    assert(m.remove(old_id).dom() =~= m.dom().remove(old_id));
    assert(r.dom() =~= m.dom().remove(old_id).insert(new_id));
    assert(r.dom().len() == n);
    assert(keyed_by_id(r));
    assert forall|a: u32, b: u32| #[trigger] r.contains_key(a) && #[trigger] r.contains_key(b) && a
        != b implies r[a].1 != r[b].1 by {
        if a == new_id {
            assert(m.contains_key(b) && b != old_id);
        } else if b == new_id {
            assert(m.contains_key(a) && a != old_id);
        } else {
            assert(m.contains_key(a) && m.contains_key(b));
        }
    }
}

/// After a hotkey of a sound table has been replaced by one whose id no other hotkey of
/// the table has and whose key code reads back, the configuration written for the new
/// table is read again as the new table.
pub proof fn lemma_rebind_written_reads_back(
    m: Map<u32, (HotkeyBinding, HotkeyAction)>,
    new: HotkeyBinding,
    old: HotkeyBinding,
    text: Seq<char>,
)
    requires
        table_sound(m),
        m.contains_key(spec_hotkey_id(old.0, old.1)),
        spec_hotkey_id(new.0, new.1) == spec_hotkey_id(old.0, old.1) || !m.contains_key(
            spec_hotkey_id(new.0, new.1),
        ),
        code_is_stable(new.1),
        writes_table(text, rebound(m, new, old)),
    ensures
        parse_config(text) matches Some(lines) && map_of_lines(lines) == rebound(m, new, old),
{
    lemma_rebind_keeps_sound(m, new, old);
    lemma_config_round_trip(text, rebound(m, new, old));
}

} // verus!
