//! Finding the program behind an application name on Windows.
//!
//! The search itself asks the system: `where`, the registry, the disk.  What
//! stands here is the text work around those questions: which names to ask
//! for, how to read a program out of a command line, how to fill in
//! references to the environment, and which program fits a name.

use crate::chars::{
    alphanumerics, append_text, ascii_lower, char_is_alphanumeric, chars_of, contains_text,
    ends_with, eq_ignore_ascii_case, find, find_from, find_in, has_suffix, is_alphanumeric,
    keep_alphanumerics, lists_view, matches_at, opt_string_view, pieces, same_ignoring_case,
    same_text, slice_of, split_pieces, string_of, strings_of, strings_view, to_ascii_lower, trim,
    trim_matches, trimmed, words, Strip,
};
use vstd::prelude::*;

verus! {

/// `text` without white space around it and, within that, without double
/// quotes around it.
pub open spec fn unquote(text: Seq<char>) -> Seq<char> {
    trim_matches(trim(text), '"')
}

/// Strips white space and then double quotes from both ends of `chars`.
pub fn unquoted(chars: &Vec<char>) -> (out: Vec<char>)
    ensures
        out@ == unquote(chars@),
{
    let inner = trimmed(chars, Strip::Whitespace);
    trimmed(&inner, Strip::Char('"'))
}

/// `text` with every run of characters that are no ASCII letters or digits
/// replaced by one underscore.
pub open spec fn underscored(text: Seq<char>) -> Seq<char>
    decreases text.len(),
{
    if text.len() == 0 {
        text
    } else {
        let front = underscored(text.drop_last());
        if is_alphanumeric(text.last()) {
            front.push(text.last())
        } else if front.len() > 0 && front.last() == '_' {
            front
        } else {
            front.push('_')
        }
    }
}

/// The snake-case form of `text`: runs of other characters than ASCII
/// letters and digits become one underscore, and no underscore stands at
/// either end.
pub open spec fn snake_case(text: Seq<char>) -> Seq<char> {
    trim_matches(underscored(text), '_')
}

/// Puts `chars` in snake case.
pub fn to_snake_case(chars: &Vec<char>) -> (snake: Vec<char>)
    ensures
        snake@ == snake_case(chars@),
{
    let mut raw: Vec<char> = Vec::new();
    let mut i: usize = 0;
    while i < chars.len()
        invariant
            i <= chars.len(),
            raw@ == underscored(chars@.subrange(0, i as int)),
        decreases chars.len() - i,
    {
        let c = chars[i];
        if char_is_alphanumeric(c) {
            raw.push(c);
        } else if raw.len() == 0 || raw[raw.len() - 1] != '_' {
            raw.push('_');
        }
        i = i + 1;
        assert(chars@.subrange(0, i as int).drop_last() == chars@.subrange(0, i - 1));
    }
    assert(chars@.subrange(0, i as int) == chars@);
    trimmed(&raw, Strip::Char('_'))
}

/// Whether `list` holds `value`, up to the case of ASCII letters.
pub open spec fn listed(list: Seq<Seq<char>>, value: Seq<char>) -> bool {
    exists|i: int| 0 <= i < list.len() && same_ignoring_case(#[trigger] list[i], value)
}

/// `list` with `value` added at the end, unless `value` is empty or the list
/// holds it already, up to the case of ASCII letters.
pub open spec fn add_unique(list: Seq<Seq<char>>, value: Seq<char>) -> Seq<Seq<char>> {
    if value.len() == 0 || listed(list, value) {
        list
    } else {
        list.push(value)
    }
}

/// `list` with each of `values` added in turn, unquoted, by [`add_unique`].
pub open spec fn add_candidates(list: Seq<Seq<char>>, values: Seq<Seq<char>>) -> Seq<Seq<char>>
    decreases values.len(),
{
    if values.len() == 0 {
        list
    } else {
        add_unique(add_candidates(list, values.drop_last()), unquote(values.last()))
    }
}

/// Whether `list` holds `value`, up to the case of ASCII letters.
fn is_listed(list: &Vec<Vec<char>>, value: &Vec<char>) -> (found: bool)
    ensures
        found == listed(lists_view(list@), value@),
{
    let mut i: usize = 0;
    while i < list.len()
        invariant
            i <= list.len(),
            forall|k: int| 0 <= k < i ==> !same_ignoring_case(
                #[trigger] lists_view(list@)[k],
                value@,
            ),
        decreases list.len() - i,
    {
        if eq_ignore_ascii_case(&list[i], value) {
            assert(same_ignoring_case(lists_view(list@)[i as int], value@));
            return true;
        }
        i = i + 1;
    }
    false
}

/// Adds `value` to `list` unless it is empty or listed already.
fn push_unique(list: &mut Vec<Vec<char>>, value: Vec<char>)
    ensures
        lists_view(final(list)@) == add_unique(lists_view(old(list)@), value@),
{
    if value.len() == 0 || is_listed(list, &value) {
    } else {
        list.push(value);
        assert(lists_view(list@) =~= lists_view(old(list)@).push(value@));
    }
}

/// Adds `value`, unquoted, to the candidates `list`, which so far holds what
/// `sources` gave.
fn push_candidate(list: &mut Vec<Vec<char>>, value: &Vec<char>, Ghost(sources): Ghost<
    Seq<Seq<char>>,
>)
    requires
        lists_view(old(list)@) == add_candidates(Seq::empty(), sources),
    ensures
        lists_view(final(list)@) == add_candidates(Seq::empty(), sources.push(value@)),
{
    assert(sources.push(value@).drop_last() == sources);
    push_unique(list, unquoted(value));
}

/// Whether `lower` is one of the names that Sublime Text goes by.
pub open spec fn is_sublime(lower: Seq<char>) -> bool {
    lower == "sublime text"@ || lower == "sublime-text"@ || lower == "sublime_text"@ || lower
        == "sublime text.exe"@
}

/// One text if `wanted`, else none.
pub open spec fn when(wanted: bool, texts: Seq<Seq<char>>) -> Seq<Seq<char>> {
    if wanted {
        texts
    } else {
        Seq::empty()
    }
}

/// The names under which the application `name` may be installed, before
/// doubles are dropped: the name itself, the name as a program file, its
/// snake-case form, its letters and digits alone, and for Sublime Text the
/// names of its programs.
pub open spec fn candidate_sources(name: Seq<char>) -> Seq<Seq<char>> {
    let lower = ascii_lower(name);
    let snake = snake_case(lower);
    let plain = alphanumerics(lower);
    seq![name] + when(!ends_with(lower, ".exe"@), seq![name + ".exe"@]) + when(
        snake.len() > 0,
        seq![snake] + when(!ends_with(snake, ".exe"@), seq![snake + ".exe"@]),
    ) + when(plain.len() > 0, seq![plain, plain + ".exe"@]) + when(
        is_sublime(lower),
        seq!["subl"@, "subl.exe"@, "sublime_text"@, "sublime_text.exe"@],
    )
}

/// The names to search for when the application `app_name` is looked up:
/// [`candidate_sources`] of the unquoted name, each unquoted in turn, without
/// empty names and without names that differ from an earlier one only in the
/// case of ASCII letters.  An empty name gives no candidates.
pub open spec fn candidates_text(app_name: Seq<char>) -> Seq<Seq<char>> {
    let name = unquote(app_name);
    if name.len() == 0 {
        Seq::empty()
    } else {
        add_candidates(Seq::empty(), candidate_sources(name))
    }
}

/// Lists the names to search for when the application `app_name` is looked
/// up.
pub fn candidates(app_name: &str) -> (names: Vec<String>)
    ensures
        strings_view(names@) == candidates_text(app_name@),
{
    let name = unquoted(&chars_of(app_name));
    let mut out: Vec<Vec<char>> = Vec::new();
    if name.len() == 0 {
        let names = strings_of(&out);
        assert(strings_view(names@) =~= Seq::<Seq<char>>::empty());
        return names;
    }
    let exe = chars_of(".exe");
    let lower = to_ascii_lower(&name);
    let snake = to_snake_case(&lower);
    let plain = keep_alphanumerics(&lower);
    let ghost mut sources: Seq<Seq<char>> = Seq::empty();
    assert(lists_view(out@) =~= add_candidates(Seq::empty(), sources));

    push_candidate(&mut out, &name, Ghost(sources));
    proof {
        sources = sources.push(name@);
    }
    if !has_suffix(&lower, &exe) {
        let named = append_text(&name, &exe);
        push_candidate(&mut out, &named, Ghost(sources));
        proof {
            sources = sources.push(named@);
        }
    }
    if snake.len() > 0 {
        push_candidate(&mut out, &snake, Ghost(sources));
        proof {
            sources = sources.push(snake@);
        }
        if !has_suffix(&snake, &exe) {
            let named = append_text(&snake, &exe);
            push_candidate(&mut out, &named, Ghost(sources));
            proof {
                sources = sources.push(named@);
            }
        }
    }
    if plain.len() > 0 {
        push_candidate(&mut out, &plain, Ghost(sources));
        proof {
            sources = sources.push(plain@);
        }
        let named = append_text(&plain, &exe);
        push_candidate(&mut out, &named, Ghost(sources));
        proof {
            sources = sources.push(named@);
        }
    }
    if same_text(&lower, &chars_of("sublime text")) || same_text(&lower, &chars_of("sublime-text"))
        || same_text(&lower, &chars_of("sublime_text")) || same_text(
        &lower,
        &chars_of("sublime text.exe"),
    ) {
        let first = chars_of("subl");
        push_candidate(&mut out, &first, Ghost(sources));
        proof {
            sources = sources.push(first@);
        }
        let second = chars_of("subl.exe");
        push_candidate(&mut out, &second, Ghost(sources));
        proof {
            sources = sources.push(second@);
        }
        let third = chars_of("sublime_text");
        push_candidate(&mut out, &third, Ghost(sources));
        proof {
            sources = sources.push(third@);
        }
        let fourth = chars_of("sublime_text.exe");
        push_candidate(&mut out, &fourth, Ghost(sources));
        proof {
            sources = sources.push(fourth@);
        }
    }
    assert(sources =~= candidate_sources(name@));
    strings_of(&out)
}

/// The program at the start of `text`, if `text` starts with a double quote
/// that is closed further on and the text between the two quotes, without
/// white space around it, names a program file.
pub open spec fn quoted_program(text: Seq<char>) -> Option<Seq<char>> {
    if text.len() > 0 && text[0] == '"' {
        let rest = text.drop_first();
        match find(rest, seq!['"']) {
            Some(end) => {
                let inner = trim(rest.subrange(0, end));
                if contains_text(ascii_lower(inner), ".exe"@) {
                    Some(inner)
                } else {
                    None
                }
            },
            None => None,
        }
    } else {
        None
    }
}

/// The program that the command line `value` starts: the quoted program at
/// its start if there is one, else the text up to and including the first
/// `.exe`, in either case of letters, unquoted.  A command line without
/// `.exe` names no program.
pub open spec fn extract_exe_text(value: Seq<char>) -> Option<Seq<char>> {
    let text = trim(value);
    if text.len() == 0 {
        None
    } else {
        match quoted_program(text) {
            Some(program) => Some(program),
            None => match find(ascii_lower(text), ".exe"@) {
                Some(end) => Some(unquote(text.subrange(0, end + 4))),
                None => None,
            },
        }
    }
}

/// Reads the quoted program at the start of `text`.
fn read_quoted_program(text: &Vec<char>) -> (program: Option<Vec<char>>)
    ensures
        match program {
            Some(found) => quoted_program(text@) == Some(found@),
            None => quoted_program(text@) is None,
        },
{
    if text.len() == 0 || text[0] != '"' {
        return None;
    }
    let rest = slice_of(text, 1, text.len());
    let mut quote: Vec<char> = Vec::new();
    quote.push('"');
    assert(quote@ == seq!['"']);
    match find_in(&rest, &quote, 0) {
        Some(end) => {
            let inner = trimmed(&slice_of(&rest, 0, end), Strip::Whitespace);
            let lower = to_ascii_lower(&inner);
            match find_in(&lower, &chars_of(".exe"), 0) {
                Some(_) => Some(inner),
                None => None,
            }
        },
        None => None,
    }
}

/// Reads the program that a command line starts, as far as characters go.
fn extract_exe_chars(value: &Vec<char>) -> (program: Option<Vec<char>>)
    ensures
        match program {
            Some(found) => extract_exe_text(value@) == Some(found@),
            None => extract_exe_text(value@) is None,
        },
{
    let text = trimmed(value, Strip::Whitespace);
    if text.len() == 0 {
        return None;
    }
    match read_quoted_program(&text) {
        Some(program) => Some(program),
        None => {
            let lower = to_ascii_lower(&text);
            proof {
                reveal_strlit(".exe");
            }
            match find_in(&lower, &chars_of(".exe"), 0) {
                Some(end) => Some(unquoted(&slice_of(&text, 0, end + 4))),
                None => None,
            }
        },
    }
}

/// Reads the program that the command line `value` starts.
pub fn extract_exe(value: &str) -> (program: Option<String>)
    ensures
        opt_string_view(program) == extract_exe_text(value@),
{
    match extract_exe_chars(&chars_of(value)) {
        Some(found) => Some(string_of(&found)),
        None => None,
    }
}

/// The key by which an application name is compared with the names of
/// program files: its ASCII letters and digits, in small letters.
pub open spec fn app_key_text(name: Seq<char>) -> Seq<char> {
    ascii_lower(alphanumerics(name))
}

/// Works out the key of an application name.
pub fn app_key(name: &str) -> (key: String)
    ensures
        key@ == app_key_text(name@),
{
    string_of(&to_ascii_lower(&keep_alphanumerics(&chars_of(name))))
}

/// Whether a program file whose name without extension is `stem` fits the
/// application with the key `key`: the key of one contains the key of the
/// other.
pub open spec fn stem_fits(stem: Seq<char>, key: Seq<char>) -> bool {
    contains_text(app_key_text(stem), key) || contains_text(key, app_key_text(stem))
}

/// Tells whether the program file named `stem` fits the application with
/// the key `key`.
pub fn stem_matches(stem: &str, key: &str) -> (fits: bool)
    ensures
        fits == stem_fits(stem@, key@),
{
    let name = to_ascii_lower(&keep_alphanumerics(&chars_of(stem)));
    let key = chars_of(key);
    find_in(&name, &key, 0).is_some() || find_in(&key, &name, 0).is_some()
}

/// `name` as the name of a program file: with `.exe` at its end, added if
/// it is not there in either case of letters.
pub open spec fn program_file_text(name: Seq<char>) -> Seq<char> {
    if ends_with(ascii_lower(name), ".exe"@) {
        name
    } else {
        name + ".exe"@
    }
}

/// `list` with the program file of each of `names` added in turn by
/// [`add_unique`].
pub open spec fn add_program_files(list: Seq<Seq<char>>, names: Seq<Seq<char>>) -> Seq<Seq<char>>
    decreases names.len(),
{
    if names.len() == 0 {
        list
    } else {
        add_unique(add_program_files(list, names.drop_last()), program_file_text(names.last()))
    }
}

/// Lists the program files to look up in the registry for the file names
/// `names`, without doubles up to the case of ASCII letters.
pub fn registry_exe_names(names: &Vec<String>) -> (files: Vec<String>)
    ensures
        strings_view(files@) == add_program_files(Seq::empty(), strings_view(names@)),
{
    let exe = chars_of(".exe");
    let mut out: Vec<Vec<char>> = Vec::new();
    let mut i: usize = 0;
    assert(lists_view(out@) =~= Seq::<Seq<char>>::empty());
    while i < names.len()
        invariant
            i <= names.len(),
            exe@ == ".exe"@,
            lists_view(out@) == add_program_files(
                Seq::empty(),
                strings_view(names@).subrange(0, i as int),
            ),
        decreases names.len() - i,
    {
        let name = chars_of(names[i].as_str());
        let file = if has_suffix(&to_ascii_lower(&name), &exe) {
            name
        } else {
            append_text(&name, &exe)
        };
        push_unique(&mut out, file);
        i = i + 1;
        assert(strings_view(names@).subrange(0, i as int).drop_last() == strings_view(
            names@,
        ).subrange(0, i - 1));
    }
    assert(strings_view(names@).subrange(0, i as int) == strings_view(names@));
    strings_of(&out)
}

/// The registry keys under which Windows records where the program `exe`
/// is installed, in the order in which they are asked: the user's, the
/// machine's, and the machine's for 32-bit programs.  An empty name has no
/// keys.
pub open spec fn registry_keys_text(exe: Seq<char>) -> Seq<Seq<char>> {
    let name = unquote(exe);
    if name.len() == 0 {
        Seq::empty()
    } else {
        seq![
            "HKCU\\Software\\Microsoft\\Windows\\CurrentVersion\\App Paths\\"@ + name,
            "HKLM\\Software\\Microsoft\\Windows\\CurrentVersion\\App Paths\\"@ + name,
            "HKLM\\Software\\WOW6432Node\\Microsoft\\Windows\\CurrentVersion\\App Paths\\"@
                + name,
        ]
    }
}

/// Lists the registry keys to ask for the program `exe`.
pub fn registry_keys(exe: &str) -> (keys: Vec<String>)
    ensures
        strings_view(keys@) == registry_keys_text(exe@),
{
    let name = unquoted(&chars_of(exe));
    let mut keys: Vec<String> = Vec::new();
    if name.len() > 0 {
        keys.push(
            string_of(
                &append_text(
                    &chars_of("HKCU\\Software\\Microsoft\\Windows\\CurrentVersion\\App Paths\\"),
                    &name,
                ),
            ),
        );
        keys.push(
            string_of(
                &append_text(
                    &chars_of("HKLM\\Software\\Microsoft\\Windows\\CurrentVersion\\App Paths\\"),
                    &name,
                ),
            ),
        );
        keys.push(
            string_of(
                &append_text(
                    &chars_of(
                        "HKLM\\Software\\WOW6432Node\\Microsoft\\Windows\\CurrentVersion\\App Paths\\",
                    ),
                    &name,
                ),
            ),
        );
    }
    assert(strings_view(keys@) =~= registry_keys_text(exe@));
    keys
}

/// Whether `text` starts with `prefix`.
pub open spec fn starts_with(text: Seq<char>, prefix: Seq<char>) -> bool {
    prefix.len() <= text.len() && text.subrange(0, prefix.len() as int) == prefix
}

/// The first index at or after `from` of a word that names a registry value
/// type, which is one that starts with `REG_`.
pub open spec fn type_word(words: Seq<Seq<char>>, from: int) -> Option<int>
    decreases words.len() - from,
{
    if from < 0 || from >= words.len() {
        None
    } else if starts_with(words[from], "REG_"@) {
        Some(from)
    } else {
        type_word(words, from + 1)
    }
}

/// The words from index `from` on, with one space between neighbours.
pub open spec fn spaced(words: Seq<Seq<char>>, from: int) -> Seq<char>
    decreases words.len() - from,
{
    if from < 0 || from >= words.len() {
        Seq::empty()
    } else if from == words.len() - 1 {
        words[from]
    } else {
        words[from] + " "@ + spaced(words, from + 1)
    }
}

/// The value that a line of the output of `reg query` shows: the words
/// after the first word that names a value type, with one space between
/// them.  A line without such a word shows no value.
pub open spec fn registry_value_text(line: Seq<char>) -> Option<Seq<char>> {
    match type_word(words(line), 0) {
        Some(at) => Some(spaced(words(line), at + 1)),
        None => None,
    }
}

/// Joins the words from index `from` on with single spaces.
fn join_spaced(words: &Vec<Vec<char>>, from: usize) -> (joined: Vec<char>)
    ensures
        joined@ == spaced(lists_view(words@), from as int),
    decreases words.len() - from,
{
    if from >= words.len() {
        Vec::new()
    } else if from == words.len() - 1 {
        slice_of(&words[from], 0, words[from].len())
    } else {
        let head = append_text(&words[from], &chars_of(" "));
        let tail = join_spaced(words, from + 1);
        append_text(&head, &tail)
    }
}

/// Reads the value that a line of the output of `reg query` shows.
fn registry_value_chars(line: &Vec<char>) -> (value: Option<Vec<char>>)
    ensures
        match value {
            Some(found) => registry_value_text(line@) == Some(found@),
            None => registry_value_text(line@) is None,
        },
{
    let parts = split_pieces(line, Strip::Whitespace);
    let marker = chars_of("REG_");
    let mut i: usize = 0;
    while i < parts.len()
        invariant
            i <= parts.len(),
            marker@ == "REG_"@,
            lists_view(parts@) == words(line@),
            type_word(lists_view(parts@), 0) == type_word(lists_view(parts@), i as int),
        decreases parts.len() - i,
    {
        if matches_at(&parts[i], &marker, 0) {
            assert(starts_with(lists_view(parts@)[i as int], "REG_"@));
            return Some(join_spaced(&parts, i + 1));
        }
        assert(!starts_with(lists_view(parts@)[i as int], "REG_"@));
        i = i + 1;
    }
    None
}

/// Reads the value that a line of the output of `reg query` shows.
pub fn registry_value(line: &str) -> (value: Option<String>)
    ensures
        opt_string_view(value) == registry_value_text(line@),
{
    match registry_value_chars(&chars_of(line)) {
        Some(found) => Some(string_of(&found)),
        None => None,
    }
}

/// `list` with each of `lines` added in turn, without white space around
/// it, unless nothing is left of it then.
pub open spec fn add_trimmed(list: Seq<Seq<char>>, lines: Seq<Seq<char>>) -> Seq<Seq<char>>
    decreases lines.len(),
{
    if lines.len() == 0 {
        list
    } else {
        let front = add_trimmed(list, lines.drop_last());
        if trim(lines.last()).len() > 0 {
            front.push(trim(lines.last()))
        } else {
            front
        }
    }
}

/// The paths that the output of `where` lists: its lines without white
/// space around them, empty lines left out.
pub open spec fn where_paths_text(output: Seq<char>) -> Seq<Seq<char>> {
    add_trimmed(Seq::empty(), pieces(output, Strip::Char('\n')))
}

/// Reads the paths that the output of `where` lists.
pub fn where_paths(output: &str) -> (paths: Vec<String>)
    ensures
        strings_view(paths@) == where_paths_text(output@),
{
    let lines = split_pieces(&chars_of(output), Strip::Char('\n'));
    let mut out: Vec<Vec<char>> = Vec::new();
    let mut i: usize = 0;
    assert(lists_view(out@) =~= Seq::<Seq<char>>::empty());
    while i < lines.len()
        invariant
            i <= lines.len(),
            lists_view(out@) == add_trimmed(
                Seq::empty(),
                lists_view(lines@).subrange(0, i as int),
            ),
        decreases lines.len() - i,
    {
        let line = trimmed(&lines[i], Strip::Whitespace);
        if line.len() > 0 {
            let ghost before = out@;
            out.push(line);
            assert(lists_view(out@) =~= lists_view(before).push(line@));
        }
        i = i + 1;
        assert(lists_view(lines@).subrange(0, i as int).drop_last() == lists_view(
            lines@,
        ).subrange(0, i - 1));
    }
    assert(lists_view(lines@).subrange(0, i as int) == lists_view(lines@));
    strings_of(&out)
}

/// `list` with the program that each of `commands` starts added in turn,
/// where it starts one.
pub open spec fn add_programs(list: Seq<Seq<char>>, commands: Seq<Seq<char>>) -> Seq<Seq<char>>
    decreases commands.len(),
{
    if commands.len() == 0 {
        list
    } else {
        let front = add_programs(list, commands.drop_last());
        match extract_exe_text(commands.last()) {
            Some(program) => front.push(program),
            None => front,
        }
    }
}

/// The programs that a command script names: the program that each piece
/// of the script between double quotes starts, in order.
pub open spec fn script_programs_text(content: Seq<char>) -> Seq<Seq<char>> {
    add_programs(Seq::empty(), pieces(content, Strip::Char('"')))
}

/// Adds the program that each of `commands` starts to an empty list.
fn programs_of(commands: &Vec<Vec<char>>) -> (out: Vec<Vec<char>>)
    ensures
        lists_view(out@) == add_programs(Seq::empty(), lists_view(commands@)),
{
    let mut out: Vec<Vec<char>> = Vec::new();
    let mut i: usize = 0;
    assert(lists_view(out@) =~= Seq::<Seq<char>>::empty());
    while i < commands.len()
        invariant
            i <= commands.len(),
            lists_view(out@) == add_programs(
                Seq::empty(),
                lists_view(commands@).subrange(0, i as int),
            ),
        decreases commands.len() - i,
    {
        match extract_exe_chars(&commands[i]) {
            Some(program) => {
                let ghost before = out@;
                out.push(program);
                assert(lists_view(out@) =~= lists_view(before).push(program@));
            },
            None => {},
        }
        i = i + 1;
        assert(lists_view(commands@).subrange(0, i as int).drop_last() == lists_view(
            commands@,
        ).subrange(0, i - 1));
    }
    assert(lists_view(commands@).subrange(0, i as int) == lists_view(commands@));
    out
}

/// Reads the programs that a command script names.
pub fn script_programs(content: &str) -> (programs: Vec<String>)
    ensures
        strings_view(programs@) == script_programs_text(content@),
{
    let commands = split_pieces(&chars_of(content), Strip::Char('"'));
    strings_of(&programs_of(&commands))
}

/// `list` with the value that each of `lines` shows added in turn, where
/// it shows one.
pub open spec fn add_values(list: Seq<Seq<char>>, lines: Seq<Seq<char>>) -> Seq<Seq<char>>
    decreases lines.len(),
{
    if lines.len() == 0 {
        list
    } else {
        let front = add_values(list, lines.drop_last());
        match registry_value_text(lines.last()) {
            Some(value) => front.push(value),
            None => front,
        }
    }
}

/// The programs that the output of `reg query` points to: the program that
/// the value shown on each line starts, in the order of the lines.
pub open spec fn registry_programs_text(output: Seq<char>) -> Seq<Seq<char>> {
    add_programs(Seq::empty(), add_values(Seq::empty(), pieces(output, Strip::Char('\n'))))
}

/// Reads the programs that the output of `reg query` points to.
pub fn registry_programs(output: &str) -> (programs: Vec<String>)
    ensures
        strings_view(programs@) == registry_programs_text(output@),
{
    let lines = split_pieces(&chars_of(output), Strip::Char('\n'));
    let mut values: Vec<Vec<char>> = Vec::new();
    let mut i: usize = 0;
    assert(lists_view(values@) =~= Seq::<Seq<char>>::empty());
    while i < lines.len()
        invariant
            i <= lines.len(),
            lists_view(values@) == add_values(
                Seq::empty(),
                lists_view(lines@).subrange(0, i as int),
            ),
        decreases lines.len() - i,
    {
        match registry_value_chars(&lines[i]) {
            Some(value) => {
                let ghost before = values@;
                values.push(value);
                assert(lists_view(values@) =~= lists_view(before).push(value@));
            },
            None => {},
        }
        i = i + 1;
        assert(lists_view(lines@).subrange(0, i as int).drop_last() == lists_view(
            lines@,
        ).subrange(0, i - 1));
    }
    assert(lists_view(lines@).subrange(0, i as int) == lists_view(lines@));
    strings_of(&programs_of(&values))
}

/// `list` with each of `steps` added in turn, except steps that are a
/// single dot.
pub open spec fn add_steps(list: Seq<Seq<char>>, steps: Seq<Seq<char>>) -> Seq<Seq<char>>
    decreases steps.len(),
{
    if steps.len() == 0 {
        list
    } else {
        let front = add_steps(list, steps.drop_last());
        if steps.last() == "."@ {
            front
        } else {
            front.push(steps.last())
        }
    }
}

/// The way from the folder of a command script to the program `exe` that
/// the script names relative to itself, by `%~dp0` in either case of
/// letters: the names after that mark, between slashes of either kind,
/// without empty names and single dots.  A name of two dots stands for a
/// step up.  A program that is not named relative to the script has no such
/// way.
pub open spec fn script_relative_text(exe: Seq<char>) -> Option<Seq<Seq<char>>> {
    match find(ascii_lower(exe), "%~dp0"@) {
        Some(at) => Some(
            add_steps(
                Seq::empty(),
                pieces(exe.subrange(at + 5, exe.len() as int), Strip::Either('/', '\\')),
            ),
        ),
        None => None,
    }
}

/// Content of an optional list of texts.
pub open spec fn opt_strings_view(list: Option<Vec<String>>) -> Option<Seq<Seq<char>>> {
    match list {
        Some(list) => Some(strings_view(list@)),
        None => None,
    }
}

/// Reads the way from the folder of a command script to the program `exe`.
pub fn script_relative(exe: &str) -> (steps: Option<Vec<String>>)
    ensures
        opt_strings_view(steps) == script_relative_text(exe@),
{
    let chars = chars_of(exe);
    let lower = to_ascii_lower(&chars);
    proof {
        reveal_strlit("%~dp0");
        reveal_strlit(".");
    }
    match find_in(&lower, &chars_of("%~dp0"), 0) {
        Some(at) => {
            let names = split_pieces(
                &slice_of(&chars, at + 5, chars.len()),
                Strip::Either('/', '\\'),
            );
            let dot = chars_of(".");
            let mut out: Vec<Vec<char>> = Vec::new();
            let mut i: usize = 0;
            assert(lists_view(out@) =~= Seq::<Seq<char>>::empty());
            while i < names.len()
                invariant
                    i <= names.len(),
                    dot@ == "."@,
                    lists_view(out@) == add_steps(
                        Seq::empty(),
                        lists_view(names@).subrange(0, i as int),
                    ),
                decreases names.len() - i,
            {
                if !same_text(&names[i], &dot) {
                    let ghost before = out@;
                    out.push(slice_of(&names[i], 0, names[i].len()));
                    assert(names@[i as int]@.subrange(0, names@[i as int]@.len() as int)
                        == names@[i as int]@);
                    assert(lists_view(out@) =~= lists_view(before).push(names@[i as int]@));
                }
                i = i + 1;
                assert(lists_view(names@).subrange(0, i as int).drop_last() == lists_view(
                    names@,
                ).subrange(0, i - 1));
            }
            assert(lists_view(names@).subrange(0, i as int) == lists_view(names@));
            Some(strings_of(&out))
        },
        None => None,
    }
}

/// A percent sign, which opens and closes a reference to the environment.
pub open spec fn percent() -> Seq<char> {
    seq!['%']
}

/// The next reference to the environment in `value` at or after `index`:
/// the positions of the percent signs that open and close it.
pub open spec fn next_reference(value: Seq<char>, index: int) -> Option<(int, int)> {
    match find_from(value, percent(), index) {
        Some(start) => match find_from(value, percent(), start + 1) {
            Some(end) => if index <= start < end < value.len() {
                Some((start, end))
            } else {
                None
            },
            None => None,
        },
        None => None,
    }
}

/// The names of the environment variables that `value` refers to from
/// `index` on, in order and with repetitions.  Two percent signs in a row
/// refer to nothing.
pub open spec fn env_keys_from(value: Seq<char>, index: int) -> Seq<Seq<char>>
    decreases value.len() - index,
{
    match next_reference(value, index) {
        Some((start, end)) => {
            let key = value.subrange(start + 1, end);
            when(key.len() > 0, seq![key]) + env_keys_from(value, end + 1)
        },
        None => Seq::empty(),
    }
}

/// The names of the environment variables that `value` refers to.
pub open spec fn env_keys_text(value: Seq<char>) -> Seq<Seq<char>> {
    env_keys_from(value, 0)
}

/// `values` without its first entry, if it has one.
pub open spec fn rest_of(values: Seq<Option<Seq<char>>>) -> Seq<Option<Seq<char>>> {
    if values.len() > 0 {
        values.drop_first()
    } else {
        values
    }
}

/// `value` from `index` on with its references to the environment filled
/// in.  `values` holds what each variable of [`env_keys_from`] is set to, in
/// the same order, `None` for a variable that is not set; variables beyond
/// the end of `values` count as not set.  A reference to a variable that is
/// set is replaced by the variable's value, one to a variable that is not
/// set stays as it is, and two percent signs in a row become one.  A percent
/// sign that nothing closes stays, with all that follows.
pub open spec fn expand_from(value: Seq<char>, index: int, values: Seq<Option<Seq<char>>>) -> Seq<
    char,
>
    decreases value.len() - index,
{
    match next_reference(value, index) {
        Some((start, end)) => {
            let head = value.subrange(index, start);
            if end == start + 1 {
                head + percent() + expand_from(value, end + 1, values)
            } else if values.len() > 0 && values[0] is Some {
                head + values[0]->0 + expand_from(value, end + 1, rest_of(values))
            } else {
                head + value.subrange(start, end + 1) + expand_from(
                    value,
                    end + 1,
                    rest_of(values),
                )
            }
        },
        None => value.subrange(index, value.len() as int),
    }
}

/// `value` with its references to the environment filled in from `values`.
pub open spec fn expand_env_text(value: Seq<char>, values: Seq<Option<Seq<char>>>) -> Seq<char> {
    expand_from(value, 0, values)
}

/// Finds the next reference to the environment at or after `index`.
fn find_reference(value: &Vec<char>, index: usize) -> (found: Option<(usize, usize)>)
    requires
        index <= value.len(),
    ensures
        match found {
            Some((start, end)) => next_reference(value@, index as int) == Some(
                (start as int, end as int),
            ) && index <= start < end < value.len(),
            None => next_reference(value@, index as int) is None,
        },
{
    let mut sign: Vec<char> = Vec::new();
    sign.push('%');
    assert(sign@ == percent());
    match find_in(value, &sign, index) {
        Some(start) => match find_in(value, &sign, start + 1) {
            Some(end) => Some((start, end)),
            None => None,
        },
        None => None,
    }
}

/// Lists the names of the environment variables that `value` refers to.
pub fn env_keys(value: &str) -> (keys: Vec<String>)
    ensures
        strings_view(keys@) == env_keys_text(value@),
{
    let chars = chars_of(value);
    let mut out: Vec<Vec<char>> = Vec::new();
    let mut index: usize = 0;
    assert(lists_view(out@) =~= Seq::<Seq<char>>::empty());
    loop
        invariant
            index <= chars.len(),
            chars@ == value@,
            lists_view(out@) + env_keys_from(chars@, index as int) == env_keys_text(value@),
        decreases chars.len() - index,
    {
        match find_reference(&chars, index) {
            Some((start, end)) => {
                if end > start + 1 {
                    let ghost before = out@;
                    let key = slice_of(&chars, start + 1, end);
                    out.push(key);
                    assert(lists_view(out@) =~= lists_view(before).push(key@));
                    assert(lists_view(before).push(key@) + env_keys_from(chars@, end + 1)
                        =~= lists_view(before) + (seq![key@] + env_keys_from(chars@, end + 1)));
                } else {
                    assert(Seq::<Seq<char>>::empty() + env_keys_from(chars@, end + 1)
                        =~= env_keys_from(chars@, end + 1));
                }
                index = end + 1;
            },
            None => {
                assert(lists_view(out@) + Seq::<Seq<char>>::empty() =~= lists_view(out@));
                return strings_of(&out);
            },
        }
    }
}

/// Content of a list of optional texts.
pub open spec fn values_view(values: Seq<Option<String>>) -> Seq<Option<Seq<char>>> {
    Seq::new(values.len(), |i: int| opt_string_view(values[i]))
}

/// Appends `part` to `out`.
fn append(out: &mut Vec<char>, part: &Vec<char>)
    ensures
        final(out)@ == old(out)@ + part@,
{
    let mut i: usize = 0;
    while i < part.len()
        invariant
            i <= part.len(),
            out@ == old(out)@ + part@.subrange(0, i as int),
        decreases part.len() - i,
    {
        out.push(part[i]);
        i = i + 1;
    }
    assert(part@.subrange(0, i as int) == part@);
}

/// Fills in the references to the environment in `value`.  `values` holds
/// what each variable of [`env_keys`] is set to, in the same order.
pub fn expand_env(value: &str, values: &Vec<Option<String>>) -> (expanded: String)
    ensures
        expanded@ == expand_env_text(value@, values_view(values@)),
{
    let chars = chars_of(value);
    let mut out: Vec<char> = Vec::new();
    let mut index: usize = 0;
    let mut used: usize = 0;
    let ghost all = values_view(values@);
    assert(all.skip(0) == all);
    loop
        invariant
            index <= chars.len(),
            used <= values.len(),
            chars@ == value@,
            all == values_view(values@),
            out@ + expand_from(chars@, index as int, all.skip(used as int)) == expand_env_text(
                value@,
                all,
            ),
        decreases chars.len() - index,
    {
        let ghost left = all.skip(used as int);
        let ghost before = out@;
        match find_reference(&chars, index) {
            Some((start, end)) => {
                let head = slice_of(&chars, index, start);
                append(&mut out, &head);
                let ghost tail: Seq<char>;
                if end == start + 1 {
                    out.push('%');
                    proof {
                        tail = expand_from(chars@, end + 1, left);
                        assert(out@ + tail =~= before + (head@ + percent() + tail));
                    }
                } else {
                    let known: bool = used < values.len() && values[used].is_some();
                    proof {
                        tail = expand_from(chars@, end + 1, rest_of(left));
                        if used < values.len() {
                            assert(left[0] == all[used as int]);
                            assert(rest_of(left) =~= all.skip(used + 1));
                        } else {
                            assert(rest_of(left) =~= all.skip(used as int));
                        }
                    }
                    if known {
                        match &values[used] {
                            Some(text) => {
                                let filled = chars_of(text.as_str());
                                append(&mut out, &filled);
                                assert(out@ + tail =~= before + (head@ + filled@ + tail));
                            },
                            None => {},
                        }
                    } else {
                        let kept = slice_of(&chars, start, end + 1);
                        append(&mut out, &kept);
                        assert(out@ + tail =~= before + (head@ + kept@ + tail));
                    }
                    if used < values.len() {
                        used = used + 1;
                    }
                }
                index = end + 1;
            },
            None => {
                let rest = slice_of(&chars, index, chars.len());
                append(&mut out, &rest);
                return string_of(&out);
            },
        }
    }
}

} // verus!
