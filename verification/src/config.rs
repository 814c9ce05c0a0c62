//! The hotkey configuration: one line per action, `number;hotkey`, where a hotkey
//! is either a key name or `MODIFIER + key name`.
//!
//! A configuration is read into a table keyed by the id that `global_hotkey`
//! gives each hotkey, and the table is written back in the same format.

use std::collections::{BTreeMap, HashMap};
use std::str::FromStr;

use global_hotkey::hotkey::{Code, HotKey, Modifiers};
use vstd::prelude::*;
use vstd::std_specs::iter::IteratorSpec;

use crate::hotkey_action::{action_number, action_of_number, HotkeyAction};
use crate::keys::{
    code_debug_name, code_of_name, debug_name_text, modifier_bits_of, modifier_debug_name,
    modifier_debug_text, modifier_of_name, KeyCode, Modifier, StringCodeWrap,
};
use crate::text::{parse_i32, parsed_i32, split, split_text, texts, trimmed};

verus! {

/// The configuration that is written when none exists yet.
pub const HOTKEY_INITIAL: &'static str = "0;ALT + KeyF
1;ALT + Escape
2;ALT + KeyT
3;ALT + KeyC
4;ALT + KeyS
5;ALT + KeyZ
6;ALT + KeyR";

/// A hotkey: an optional modifier and a key.
pub type HotkeyBinding = (Option<Modifier>, KeyCode);

/// The hotkeys in force, keyed by the id that `global_hotkey` gives each of them.
pub type HotkeyMap = HashMap<u32, (HotkeyBinding, HotkeyAction)>;

/// The `u32` to which `global_hotkey` cuts the hash that std's `DefaultHasher` gives a text.
pub uninterp spec fn spec_text_hash(text: Seq<char>) -> u32;

/// The text that `global_hotkey` hashes into a hotkey's id: `shift+`, `control+`, `alt+` or
/// `super+` for a modifier among these (`META` counting as `SUPER`), then the key's name;
/// any other modifier leaves no trace.
pub open spec fn hotkey_id_text(modifiers: Option<Modifier>, code: KeyCode) -> Seq<char> {
    let prefix = match modifiers {
        Some(Modifier::Shift) => "shift+"@,
        Some(Modifier::Control) => "control+"@,
        Some(Modifier::Alt) => "alt+"@,
        Some(Modifier::Super) => "super+"@,
        Some(Modifier::Meta) => "super+"@,
        _ => Seq::empty(),
    };
    prefix + code_debug_name(code)
}

/// The id that `global_hotkey` gives the hotkey with these modifiers and this key.
pub open spec fn spec_hotkey_id(modifiers: Option<Modifier>, code: KeyCode) -> u32 {
    spec_text_hash(hotkey_id_text(modifiers, code))
}

/// Calls `global_hotkey::hotkey::HotKey::new` and returns the hotkey's `id()`.
///
/// The modifier is handed over as `Modifiers::from_bits_truncate` of its flag bits and
/// the key as `Code::from_str` of its variant name, which `keyboard_types` parses for
/// every `KeyCode`. `HotKey::new` turns `META` into `SUPER`, writes `shift+`, `control+`,
/// `alt+` and `super+` for the flags it holds and then the key's `Display` name (its
/// variant name), and cuts the `DefaultHasher` hash of that text to a `u32`; the contract
/// says so, naming the hash, of which nothing else is stated.
#[verifier::external_body]
pub(crate) fn hotkey_id(modifiers: Option<Modifier>, code: KeyCode) -> (id: u32)
    ensures
        id == spec_text_hash(hotkey_id_text(modifiers, code)),
{
    let mods = match modifiers {
        Some(m) => Some(Modifiers::from_bits_truncate(modifier_bits_of(m))),
        None => None,
    };
    let code = Code::from_str(debug_name_text(code)).unwrap();
    HotKey::new(mods, code).id()
}

/// Hotkeys whose modifier `global_hotkey` leaves out of the id share the id of the key
/// alone, and `META` shares the id of `SUPER`.
pub proof fn lemma_ignored_modifiers_share_id(m: Modifier, code: KeyCode)
    ensures
        !(m == Modifier::Shift || m == Modifier::Control || m == Modifier::Alt || m
            == Modifier::Super || m == Modifier::Meta) ==> spec_hotkey_id(Some(m), code)
            == spec_hotkey_id(None, code),
        spec_hotkey_id(Some(Modifier::Meta), code) == spec_hotkey_id(Some(Modifier::Super), code),
{
    assert(Seq::<char>::empty() + code_debug_name(code) =~= code_debug_name(code));
}

/// The hotkey that a text already cut at `" + "` names: a key alone, or a modifier and a key.
pub open spec fn binding_of_parts(parts: Seq<Seq<char>>) -> Option<HotkeyBinding> {
    if parts.len() == 1 {
        Some((None, code_of_name(trimmed(parts[0]))))
    } else if parts.len() == 2 {
        Some((Some(modifier_of_name(parts[0])), code_of_name(trimmed(parts[1]))))
    } else {
        None
    }
}

/// The hotkey that a hotkey text names.
pub open spec fn binding_of_text(hotkey: Seq<char>) -> Option<HotkeyBinding> {
    binding_of_parts(split(hotkey, " + "@))
}

/// What a configuration line says: its action, its hotkey text and the hotkey.
pub open spec fn parse_line(line: Seq<char>) -> Option<(HotkeyAction, Seq<char>, HotkeyBinding)> {
    let fields = split(line, ";"@);
    if fields.len() < 2 {
        None
    } else {
        match parsed_i32(fields[0]) {
            Some(v) => match action_of_number(v) {
                Some(a) => match binding_of_text(fields[1]) {
                    Some(b) => Some((a, fields[1], b)),
                    None => None,
                },
                None => None,
            },
            None => None,
        }
    }
}

/// What each line of a configuration says, if every line can be read.
pub open spec fn parse_config(text: Seq<char>) -> Option<Seq<(HotkeyAction, Seq<char>, HotkeyBinding)>> {
    let lines = split(text, "\n"@);
    if forall|i: int| 0 <= i < lines.len() ==> (#[trigger] parse_line(lines[i])) is Some {
        Some(Seq::new(lines.len(), |i: int| parse_line(lines[i])->0))
    } else {
        None
    }
}

/// The table of a configuration's lines, each inserted in turn under its hotkey's id.
pub open spec fn map_of_lines(lines: Seq<(HotkeyAction, Seq<char>, HotkeyBinding)>) -> Map<
    u32,
    (HotkeyBinding, HotkeyAction),
>
    decreases lines.len(),
{
    if lines.len() == 0 {
        Map::empty()
    } else {
        let l = lines.last();
        map_of_lines(lines.drop_last()).insert(spec_hotkey_id(l.2.0, l.2.1), (l.2, l.0))
    }
}

/// A line of the configuration.
#[derive(Debug)]
pub struct HotkeyLine {
    pub action: HotkeyAction,
    pub hotkey: String,
    pub binding: HotkeyBinding,
}

impl View for HotkeyLine {
    type V = (HotkeyAction, Seq<char>, HotkeyBinding);

    open spec fn view(&self) -> (HotkeyAction, Seq<char>, HotkeyBinding) {
        (self.action, self.hotkey@, self.binding)
    }
}

/// The contents of a sequence of lines.
pub open spec fn line_views(v: Seq<HotkeyLine>) -> Seq<(HotkeyAction, Seq<char>, HotkeyBinding)> {
    v.map_values(|l: HotkeyLine| l@)
}

/// The hotkey that a text already cut at `" + "` names.
pub fn binding_from_parts(parts: &Vec<String>) -> (r: Option<HotkeyBinding>)
    ensures
        r == binding_of_parts(texts(parts@)),
{
    if parts.len() == 1 {
        Some((None, StringCodeWrap::string_to_code(parts[0].clone())))
    } else if parts.len() == 2 {
        let modifier = StringCodeWrap::string_to_modifiers(parts[0].clone());
        let code = StringCodeWrap::string_to_code(parts[1].clone());
        Some((Some(modifier), code))
    } else {
        None
    }
}

/// Reads one configuration line.
pub fn parse_hotkey_line(line: &str) -> (r: Option<HotkeyLine>)
    ensures
        match r {
            Some(l) => parse_line(line@) == Some(l@),
            None => parse_line(line@) is None,
        },
{
    proof {
        reveal_strlit(";");
        reveal_strlit(" + ");
    }
    let fields = split_text(line, ";");
    if fields.len() < 2 {
        return None;
    }
    let value = match parse_i32(fields[0].as_str()) {
        Some(v) => v,
        None => return None,
    };
    let action = match HotkeyAction::new_from_i32(value) {
        Some(a) => a,
        None => return None,
    };
    let parts = split_text(fields[1].as_str(), " + ");
    match binding_from_parts(&parts) {
        Some(binding) => Some(HotkeyLine { action, hotkey: fields[1].clone(), binding }),
        None => None,
    }
}

/// Reads a whole configuration; `None` where a line cannot be read.
pub fn parse_hotkey_config(text: &str) -> (r: Option<Vec<HotkeyLine>>)
    ensures
        match r {
            Some(v) => parse_config(text@) == Some(line_views(v@)),
            None => parse_config(text@) is None,
        },
{
    proof {
        reveal_strlit("\n");
    }
    let raw = split_text(text, "\n");
    let ghost lines = split(text@, "\n"@);
    let mut result: Vec<HotkeyLine> = Vec::new();
    let mut i: usize = 0;
    while i < raw.len()
        invariant
            texts(raw@) == lines,
            lines == split(text@, "\n"@),
            i <= raw@.len(),
            result@.len() == i,
            forall|k: int| 0 <= k < i ==> parse_line(lines[k]) == Some(#[trigger] result@[k]@),
        decreases raw@.len() - i,
    {
        match parse_hotkey_line(raw[i].as_str()) {
            Some(l) => {
                result.push(l);
            },
            None => {
                assert(parse_line(lines[i as int]) is None);
                return None;
            },
        }
        i += 1;
    }
    assert forall|k: int| 0 <= k < lines.len() implies (#[trigger] parse_line(lines[k])) is Some by {
        assert(parse_line(lines[k]) == Some(result@[k]@));
    }
    assert(line_views(result@) =~= Seq::new(lines.len(), |k: int| parse_line(lines[k])->0));
    Some(result)
}

/// Builds the table of a configuration's lines and collects their hotkey texts.
pub fn hotkey_map_from_lines(lines: Vec<HotkeyLine>) -> (r: (Vec<String>, HotkeyMap))
    ensures
        texts(r.0@) == line_views(lines@).map_values(
            |l: (HotkeyAction, Seq<char>, HotkeyBinding)| l.1,
        ),
        r.1@ == map_of_lines(line_views(lines@)),
{
    broadcast use vstd::std_specs::hash::group_hash_axioms;

    let mut hotkeys_strings: Vec<String> = Vec::new();
    let mut hotkey_map: HotkeyMap = HashMap::new();
    let mut i: usize = 0;
    while i < lines.len()
        invariant
            i <= lines@.len(),
            texts(hotkeys_strings@) == line_views(lines@).take(i as int).map_values(
                |l: (HotkeyAction, Seq<char>, HotkeyBinding)| l.1,
            ),
            hotkey_map@ == map_of_lines(line_views(lines@).take(i as int)),
        decreases lines@.len() - i,
    {
        let line = &lines[i];
        let ghost before = hotkeys_strings@;
        hotkeys_strings.push(line.hotkey.clone());
        let id = hotkey_id(line.binding.0, line.binding.1);
        hotkey_map.insert(id, (line.binding, line.action));
        proof {
            assert(texts(hotkeys_strings@) =~= texts(before).push(lines@[i as int].hotkey@));
            let taken = line_views(lines@).take(i + 1);
            assert(taken.drop_last() =~= line_views(lines@).take(i as int));
            assert(texts(hotkeys_strings@) =~= taken.map_values(
                |l: (HotkeyAction, Seq<char>, HotkeyBinding)| l.1,
            ));
        }
        i += 1;
    }
    assert(line_views(lines@).take(lines@.len() as int) =~= line_views(lines@));
    (hotkeys_strings, hotkey_map)
}

/// Reads a configuration into its hotkey texts and its table; `None` where a line cannot be read.
pub fn hotkey_map_from_config(text: &str) -> (r: Option<(Vec<String>, HotkeyMap)>)
    ensures
        match r {
            Some((strings, map)) => parse_config(text@) matches Some(lines) && texts(strings@)
                == lines.map_values(|l: (HotkeyAction, Seq<char>, HotkeyBinding)| l.1) && map@
                == map_of_lines(lines),
            None => parse_config(text@) is None,
        },
{
    match parse_hotkey_config(text) {
        Some(lines) => Some(hotkey_map_from_lines(lines)),
        None => None,
    }
}

/// The text under which a hotkey is written back: `{:?}` of the modifier, `" + "`, and
/// `{:?}` of the key; the key alone where there is no modifier.
pub open spec fn binding_text(b: HotkeyBinding) -> Seq<char> {
    match b.0 {
        Some(m) => modifier_debug_name(m) + " + "@ + code_debug_name(b.1),
        None => code_debug_name(b.1),
    }
}

/// The text for each action number, a later entry of an action replacing an earlier one.
pub open spec fn texts_by_action(entries: Seq<(HotkeyBinding, HotkeyAction)>) -> Map<i32, Seq<char>>
    decreases entries.len(),
{
    if entries.len() == 0 {
        Map::empty()
    } else {
        let e = entries.last();
        texts_by_action(entries.drop_last()).insert(action_number(e.1), binding_text(e.0))
    }
}

/// The digit that writes an action number.
pub open spec fn number_text(k: i32) -> Seq<char> {
    if k == 0 {
        "0"@
    } else if k == 1 {
        "1"@
    } else if k == 2 {
        "2"@
    } else if k == 3 {
        "3"@
    } else if k == 4 {
        "4"@
    } else if k == 5 {
        "5"@
    } else {
        "6"@
    }
}

/// The highest number below `k` that `t` holds a text for; `-1` where there is none.
pub open spec fn highest_below(t: Map<i32, Seq<char>>, k: int) -> int
    decreases k,
{
    if k <= 0 {
        -1
    } else if t.contains_key((k - 1) as i32) {
        k - 1
    } else {
        highest_below(t, k - 1)
    }
}

/// The highest action number that `t` holds a text for; `-1` where there is none.
pub open spec fn last_number(t: Map<i32, Seq<char>>) -> int {
    highest_below(t, 7)
}

/// The line that writes the text of number `k`; every line but that of the highest number
/// ends with a line break.
pub open spec fn config_line(t: Map<i32, Seq<char>>, k: int) -> Seq<char> {
    number_text(k as i32) + ";"@ + t[k as i32] + if k == last_number(t) {
        seq![]
    } else {
        "\n"@
    }
}

/// The lines for the numbers from `k` to 6 that `t` holds a text for, in increasing order.
pub open spec fn config_from(t: Map<i32, Seq<char>>, k: int) -> Seq<char>
    decreases 7 - k,
{
    if k < 0 || k >= 7 {
        seq![]
    } else if t.contains_key(k as i32) {
        config_line(t, k) + config_from(t, k + 1)
    } else {
        config_from(t, k + 1)
    }
}

/// The configuration that writes the texts of `t`.
pub open spec fn config_text(t: Map<i32, Seq<char>>) -> Seq<char> {
    config_from(t, 0)
}

/// `v` lists the entries of `m`, each once, in some order.
pub open spec fn is_listing(
    v: Seq<(u32, (HotkeyBinding, HotkeyAction))>,
    m: Map<u32, (HotkeyBinding, HotkeyAction)>,
) -> bool {
    &&& v.len() == m.dom().len()
    &&& forall|i: int| 0 <= i < v.len() ==> #[trigger] m.contains_key(v[i].0) && m[v[i].0] == v[i].1
    &&& forall|i: int, j: int| 0 <= i < j < v.len() ==> v[i].0 != v[j].0
    &&& forall|id: u32| #[trigger] m.contains_key(id) ==> exists|i: int| 0 <= i < v.len() && v[i].0 == id
}

/// The values of a listing.
pub open spec fn listed_values(v: Seq<(u32, (HotkeyBinding, HotkeyAction))>) -> Seq<
    (HotkeyBinding, HotkeyAction),
> {
    v.map_values(|e: (u32, (HotkeyBinding, HotkeyAction))| e.1)
}

/// The contents of a table of texts.
pub open spec fn text_views(m: Map<i32, String>) -> Map<i32, Seq<char>> {
    m.map_values(|s: String| s@)
}

/// Writes the text of a hotkey.
pub fn hotkey_text(b: &HotkeyBinding) -> (r: String)
    ensures
        r@ == binding_text(*b),
{
    let mut temp = String::new();
    match b.0 {
        Some(x) => {
            temp.append(modifier_debug_text(x));
            temp.append(" + ");
        },
        None => {},
    }
    temp.append(debug_name_text(b.1));
    temp
}

/// Writes an action number.
fn number_digit(k: i32) -> (r: &'static str)
    ensures
        r@ == number_text(k),
{
    match k {
        0 => "0",
        1 => "1",
        2 => "2",
        3 => "3",
        4 => "4",
        5 => "5",
        _ => "6",
    }
}

/// Writes a table back as a configuration: for each action number present, in increasing
/// order, a line `number;hotkey`, every line but the last followed by a line break.
/// Where two entries carry one action, the one that the table's walk meets last is written.
pub fn render_hotkey_config(map: &HotkeyMap) -> (r: String)
    ensures
        exists|v: Seq<(u32, (HotkeyBinding, HotkeyAction))>|
            is_listing(v, map@) && r@ == config_text(texts_by_action(listed_values(v))),
{
    broadcast use vstd::std_specs::hash::group_hash_axioms;
    broadcast use vstd::std_specs::btree::group_btree_axioms;

    let mut temporary_map: BTreeMap<i32, String> = BTreeMap::new();
    let ghost walk = vstd::std_specs::hash::spec_hash_map_iter(map).remaining();
    for (_, value) in it: map.iter()
        invariant
            it.seq() == walk,
            it.seq().len() == map@.dom().len(),
            forall|i: int|
                0 <= i < it.seq().len() ==> map@.contains_key(*it.seq()[i].0) && map@[*it.seq()[i].0]
                    == *it.seq()[i].1,
            it.seq().no_duplicates(),
            text_views(temporary_map@) == texts_by_action(
                it.seq().take(it.index() as int).map_values(
                    |p: (&u32, &(HotkeyBinding, HotkeyAction))| *p.1,
                ),
            ),
    {
        let text = hotkey_text(&value.0);
        let number = HotkeyAction::i32_from_action(value.1);
        let ghost before = temporary_map@;
        temporary_map.insert(number, text);
        proof {
            assert(text_views(temporary_map@) =~= text_views(before).insert(number, text@));
            let taken = it.seq().take(it.index() + 1).map_values(
                |p: (&u32, &(HotkeyBinding, HotkeyAction))| *p.1,
            );
            assert(taken.drop_last() =~= it.seq().take(it.index() as int).map_values(
                |p: (&u32, &(HotkeyBinding, HotkeyAction))| *p.1,
            ));
        }
    }
    let ghost listing = walk.map_values(
        |p: (&u32, &(HotkeyBinding, HotkeyAction))| (*p.0, *p.1),
    );
    proof {
        assert(walk.take(walk.len() as int) =~= walk);
        assert(listed_values(listing) =~= walk.map_values(
            |p: (&u32, &(HotkeyBinding, HotkeyAction))| *p.1,
        ));
        assert forall|i: int, j: int| 0 <= i < j < listing.len() implies listing[i].0
            != listing[j].0 by {
            if listing[i].0 == listing[j].0 {
                assert(walk[i] == walk[j]);
            }
        }
        assert forall|id: u32| #[trigger] map@.contains_key(id) implies exists|i: int|
            0 <= i < listing.len() && listing[i].0 == id by {
            assert(walk.contains((&id, &map@[id])));
            let i = choose|i: int| 0 <= i < walk.len() && walk[i] == (&id, &map@[id]);
            assert(listing[i].0 == id);
        }
        assert(is_listing(listing, map@));
    }
    let ghost t = text_views(temporary_map@);
    assert(t.dom() =~= temporary_map@.dom());
    let mut last: i32 = -1;
    let mut j: i32 = 7;
    while j > 0 && last == -1
        invariant
            0 <= j <= 7,
            t == text_views(temporary_map@),
            last == -1 ==> last_number(t) == highest_below(t, j as int),
            last != -1 ==> last == last_number(t),
        decreases j,
    {
        match temporary_map.get(&(j - 1)) {
            Some(_) => {
                assert(t.contains_key((j - 1) as i32));
                last = j - 1;
            },
            None => {},
        }
        j -= 1;
    }
    assert(last == last_number(t));
    let mut string = String::new();
    let mut k: i32 = 0;
    assert(string@ + config_from(t, 0) =~= config_from(t, 0));
    while k < 7
        invariant
            0 <= k <= 7,
            last == last_number(t),
            t == text_views(temporary_map@),
            string@ + config_from(t, k as int) == config_text(t),
        decreases 7 - k,
    {
        let ghost before = string@;
        match temporary_map.get(&k) {
            Some(value) => {
                string.append(number_digit(k));
                string.append(";");
                string.append(value.as_str());
                if k != last {
                    string.append("\n");
                }
                proof {
                    assert(t.contains_key(k));
                    assert(string@ =~= before + config_line(t, k as int));
                }
            },
            None => {},
        }
        k += 1;
    }
    string
}

/// Why a hotkey text cannot be rebound.
#[derive(Clone, Copy, Debug, PartialEq, Eq, Structural)]
pub enum HotkeyError {
    /// A hotkey text without any part.
    EmptyHotkey,
    /// A hotkey text of more than a modifier and a key.
    TooManyKeys,
    /// The hotkey to replace is not in the table.
    UnknownHotkey,
}

/// The error, if any, of a hotkey text cut into `parts`.
pub open spec fn parts_error(parts: Seq<Seq<char>>) -> Option<HotkeyError> {
    if parts.len() == 0 {
        Some(HotkeyError::EmptyHotkey)
    } else if parts.len() > 2 {
        Some(HotkeyError::TooManyKeys)
    } else {
        None
    }
}

/// The error, if any, of replacing the hotkey `old` by `new` in `m`: that of the old text,
/// then a missing old hotkey, then that of the new text.
pub open spec fn rebind_error(
    m: Map<u32, (HotkeyBinding, HotkeyAction)>,
    new: Seq<Seq<char>>,
    old: Seq<Seq<char>>,
) -> Option<HotkeyError> {
    if parts_error(old) is Some {
        parts_error(old)
    } else {
        let b = binding_of_parts(old)->0;
        if !m.contains_key(spec_hotkey_id(b.0, b.1)) {
            Some(HotkeyError::UnknownHotkey)
        } else {
            parts_error(new)
        }
    }
}

/// The table after the hotkey `old` has been replaced by `new`, which takes over its action.
pub open spec fn rebound(
    m: Map<u32, (HotkeyBinding, HotkeyAction)>,
    new: HotkeyBinding,
    old: HotkeyBinding,
) -> Map<u32, (HotkeyBinding, HotkeyAction)> {
    let old_id = spec_hotkey_id(old.0, old.1);
    m.remove(old_id).insert(spec_hotkey_id(new.0, new.1), (new, m[old_id].1))
}

/// A hotkey replaced by another: the two hotkeys, and the configuration to write afterwards.
#[derive(Debug)]
pub struct Rebinding {
    pub old_hotkey: HotkeyBinding,
    pub new_hotkey: HotkeyBinding,
    pub config_text: String,
}

/// Whether `text` writes the table `m`, walked in some order.
pub open spec fn writes_table(text: Seq<char>, m: Map<u32, (HotkeyBinding, HotkeyAction)>) -> bool {
    exists|v: Seq<(u32, (HotkeyBinding, HotkeyAction))>|
        is_listing(v, m) && text == config_text(texts_by_action(listed_values(v)))
}

/// Replaces the hotkey that `old_codes_string` names by the one that `new_codes_string`
/// names, which takes over its action, and writes the configuration of the new table.
/// The table is left as it is where either text is empty or too long, or the old hotkey
/// is not in the table.
pub fn rebind_hotkey(
    map: &mut HotkeyMap,
    new_codes_string: &Vec<String>,
    old_codes_string: &Vec<String>,
) -> (r: Result<Rebinding, HotkeyError>)
    ensures
        match r {
            Ok(rb) => {
                &&& rebind_error(old(map)@, texts(new_codes_string@), texts(old_codes_string@))
                    is None
                &&& binding_of_parts(texts(old_codes_string@)) == Some(rb.old_hotkey)
                &&& binding_of_parts(texts(new_codes_string@)) == Some(rb.new_hotkey)
                &&& final(map)@ == rebound(old(map)@, rb.new_hotkey, rb.old_hotkey)
                &&& writes_table(rb.config_text@, final(map)@)
            },
            Err(e) => {
                &&& rebind_error(old(map)@, texts(new_codes_string@), texts(old_codes_string@))
                    == Some(e)
                &&& final(map)@ == old(map)@
            },
        },
{
    broadcast use vstd::std_specs::hash::group_hash_axioms;

    if old_codes_string.len() == 0 {
        return Err(HotkeyError::EmptyHotkey);
    }
    if old_codes_string.len() > 2 {
        return Err(HotkeyError::TooManyKeys);
    }
    let old_hotkey = match binding_from_parts(old_codes_string) {
        Some(b) => b,
        None => return Err(HotkeyError::EmptyHotkey),
    };
    let old_id = hotkey_id(old_hotkey.0, old_hotkey.1);
    if !map.contains_key(&old_id) {
        return Err(HotkeyError::UnknownHotkey);
    }
    if new_codes_string.len() == 0 {
        return Err(HotkeyError::EmptyHotkey);
    }
    if new_codes_string.len() > 2 {
        return Err(HotkeyError::TooManyKeys);
    }
    let new_hotkey = match binding_from_parts(new_codes_string) {
        Some(b) => b,
        None => return Err(HotkeyError::EmptyHotkey),
    };
    let old_action = match map.remove(&old_id) {
        Some(entry) => entry.1,
        None => return Err(HotkeyError::UnknownHotkey),
    };
    let new_id = hotkey_id(new_hotkey.0, new_hotkey.1);
    map.insert(new_id, (new_hotkey, old_action));
    let config_text = render_hotkey_config(map);
    Ok(Rebinding { old_hotkey, new_hotkey, config_text })
}

} // verus!
