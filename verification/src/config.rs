//! Persistent device selection: simple `key=value` lines
//! (`mic=<id>`, `speaker=<id>`, `output=<id>`).
use crate::audio::device::{slice_of, text_of};
use crate::text;
use vstd::prelude::*;

verus! {

/// The saved choice of devices, by endpoint ID.
pub struct Config {
    pub mic: Option<String>,
    pub speaker: Option<String>,
    pub output: Option<String>,
}

/// The name of the file, next to the executable, that holds the selection.
pub fn file_name() -> (name: &'static str)
    ensures
        name@ == "rust_aec.cfg"@,
{
    "rust_aec.cfg"
}

/// The value that one line gives a key: the trimmed text behind the first `=`,
/// where the trimmed text before it is the key.
pub open spec fn value_in(line: Seq<char>, key: Seq<char>) -> Option<Seq<char>> {
    let eq = text::until(line, '=') as int;
    if eq < line.len() && text::trim(line.take(eq)) == key {
        Some(text::trim(line.skip(eq + 1)))
    } else {
        None
    }
}

/// The first of two optional values that is there.
pub open spec fn prefer(a: Option<Seq<char>>, b: Option<Seq<char>>) -> Option<Seq<char>> {
    if a is Some {
        a
    } else {
        b
    }
}

/// The value that a file gives a key: that of the last line that has the key.
pub open spec fn lookup(file: Seq<char>, key: Seq<char>) -> Option<Seq<char>>
    decreases file.len(),
{
    let cut = text::until(file, '\n') as int;
    if cut >= file.len() {
        value_in(file, key)
    } else {
        prefer(lookup(file.skip(cut + 1), key), value_in(file.take(cut), key))
    }
}

/// The value that one line gives a key.
fn line_value(
    source: &str,
    chars: &Vec<char>,
    from: usize,
    to: usize,
    eq: usize,
    key: &str,
) -> (value: Option<String>)
    requires
        chars@ == source@,
        from <= eq < to <= chars@.len(),
        eq - from == text::until(chars@.subrange(from as int, to as int), '='),
    ensures
        text_of(value) == value_in(chars@.subrange(from as int, to as int), key@),
{
    let ghost line = chars@.subrange(from as int, to as int);
    assert(line.take(eq - from) =~= chars@.subrange(from as int, eq as int));
    assert(line.skip(eq - from + 1) =~= chars@.subrange(eq + 1, to as int));
    let (key_from, key_to) = text::trim_bounds(chars, from, eq);
    if text::same(source.substring_char(key_from, key_to), key) {
        let (value_from, value_to) = text::trim_bounds(chars, eq + 1, to);
        Some(source.substring_char(value_from, value_to).to_owned())
    } else {
        None
    }
}

/// Read the saved selection from the file's text; there is none where the file
/// cannot be read.
pub fn load(file: Option<&str>) -> (config: Config)
    ensures
        match file {
            Some(source) => {
                &&& text_of(config.mic) == lookup(source@, "mic"@)
                &&& text_of(config.speaker) == lookup(source@, "speaker"@)
                &&& text_of(config.output) == lookup(source@, "output"@)
            },
            None => config.mic is None && config.speaker is None && config.output is None,
        },
{
    let mut mic: Option<String> = None;
    let mut speaker: Option<String> = None;
    let mut output: Option<String> = None;
    let source = match file {
        Some(source) => source,
        None => return Config { mic, speaker, output },
    };
    let chars = text::chars_of(source);
    let total: usize = chars.len();
    let mut at: usize = 0;
    let mut done: bool = false;
    assert(chars@.skip(0) =~= chars@);
    while !done
        invariant
            chars@ == source@,
            total == chars@.len(),
            at <= total,
            !done ==> {
                &&& lookup(source@, "mic"@) == prefer(
                    lookup(source@.skip(at as int), "mic"@),
                    text_of(mic),
                )
                &&& lookup(source@, "speaker"@) == prefer(
                    lookup(source@.skip(at as int), "speaker"@),
                    text_of(speaker),
                )
                &&& lookup(source@, "output"@) == prefer(
                    lookup(source@.skip(at as int), "output"@),
                    text_of(output),
                )
            },
            done ==> {
                &&& lookup(source@, "mic"@) == text_of(mic)
                &&& lookup(source@, "speaker"@) == text_of(speaker)
                &&& lookup(source@, "output"@) == text_of(output)
            },
        decreases total - at + (if done {
            0int
        } else {
            1int
        }),
    {
        let end: usize = text::find_char(&chars, at, total, '\n');
        let eq: usize = text::find_char(&chars, at, end, '=');
        let ghost rest = source@.skip(at as int);
        proof {
            assert(chars@.subrange(at as int, total as int) =~= rest);
            assert(rest.take(end - at) =~= chars@.subrange(at as int, end as int));
            if end < total {
                assert(rest.skip(end - at + 1) =~= source@.skip(end + 1));
            } else {
                assert(chars@.subrange(at as int, end as int) =~= rest);
            }
        }
        if eq < end {
            let new_mic = line_value(source, &chars, at, end, eq, "mic");
            if new_mic.is_some() {
                mic = new_mic;
            }
            let new_speaker = line_value(source, &chars, at, end, eq, "speaker");
            if new_speaker.is_some() {
                speaker = new_speaker;
            }
            let new_output = line_value(source, &chars, at, end, eq, "output");
            if new_output.is_some() {
                output = new_output;
            }
        }
        if end < total {
            at = end + 1;
        } else {
            done = true;
        }
    }
    Config { mic, speaker, output }
}

/// The line that saves one device, where one is chosen.
pub open spec fn saved_line(key: Seq<char>, id: Option<Seq<char>>) -> Seq<Seq<char>> {
    match id {
        Some(id) => seq![key + "="@ + id],
        None => Seq::empty(),
    }
}

/// Lines with a line break between each and the next.
pub open spec fn joined(lines: Seq<Seq<char>>) -> Seq<char>
    decreases lines.len(),
{
    if lines.len() == 0 {
        Seq::empty()
    } else if lines.len() == 1 {
        lines[0]
    } else {
        joined(lines.drop_last()) + "\n"@ + lines.last()
    }
}

/// The file that saves a selection.
pub open spec fn saved(
    mic: Option<Seq<char>>,
    speaker: Option<Seq<char>>,
    output: Option<Seq<char>>,
) -> Seq<char> {
    joined(
        saved_line("mic"@, mic) + saved_line("speaker"@, speaker) + saved_line("output"@, output),
    )
}

/// Append the line for one device to the file's text.
fn append_line(
    file: &mut String,
    key: &str,
    id: Option<&str>,
    lines: Ghost<Seq<Seq<char>>>,
    first: bool,
) -> (still_first: bool)
    requires
        old(file)@ == joined(lines@),
        first == (lines@.len() == 0),
    ensures
        final(file)@ == joined(lines@ + saved_line(key@, slice_of(id))),
        still_first == ((lines@ + saved_line(key@, slice_of(id))).len() == 0),
{
    let ghost more = lines@ + saved_line(key@, slice_of(id));
    match id {
        Some(id) => {
            if !first {
                file.append("\n");
            }
            file.append(key);
            file.append("=");
            file.append(id);
            proof {
                assert(more.last() == key@ + "="@ + id@);
                assert(more.drop_last() =~= lines@);
                assert(file@ =~= joined(more));
            }
            false
        },
        None => {
            assert(more =~= lines@);
            first
        },
    }
}

/// The text to write to the file for a selection.
pub fn save(mic: Option<&str>, speaker: Option<&str>, output: Option<&str>) -> (file: String)
    ensures
        file@ == saved(slice_of(mic), slice_of(speaker), slice_of(output)),
{
    let mut file: String = String::new();
    let ghost one = saved_line("mic"@, slice_of(mic));
    let ghost two = one + saved_line("speaker"@, slice_of(speaker));
    let first: bool = append_line(&mut file, "mic", mic, Ghost(Seq::empty()), true);
    assert(Seq::<Seq<char>>::empty() + one =~= one);
    let first: bool = append_line(&mut file, "speaker", speaker, Ghost(one), first);
    let _ = append_line(&mut file, "output", output, Ghost(two), first);
    file
}

/// An identifier that a line can hold as it is: it has no line break, and no
/// white space at its front or its back.
pub open spec fn plain_id(id: Seq<char>) -> bool {
    &&& !id.contains('\n')
    &&& text::trim(id) == id
}

/// An optional identifier that a line can hold as it is.
pub open spec fn plain(id: Option<Seq<char>>) -> bool {
    id matches Some(id) ==> plain_id(id)
}

/// A key that a line can hold as it is.
spec fn plain_key(key: Seq<char>) -> bool {
    &&& !key.contains('=')
    &&& !key.contains('\n')
    &&& text::trim(key) == key
}

proof fn keys_are_plain()
    ensures
        plain_key("mic"@),
        plain_key("speaker"@),
        plain_key("output"@),
        "mic"@ != "speaker"@,
        "mic"@ != "output"@,
        "speaker"@ != "output"@,
{
    reveal_strlit("mic");
    reveal_strlit("speaker");
    reveal_strlit("output");
    assert("mic"@.len() == 3 && "speaker"@.len() == 7 && "output"@.len() == 6);
}

/// What a saved line says of a key.
proof fn saved_line_value(key: Seq<char>, id: Seq<char>, asked: Seq<char>)
    requires
        plain_key(key),
        plain_id(id),
    ensures
        value_in(key + "="@ + id, asked) == (if asked == key {
            Some(id)
        } else {
            None
        }),
        text::until(key + "="@ + id, '\n') == (key + "="@ + id).len(),
{
    reveal_strlit("=");
    let line = key + "="@ + id;
    let at = key.len() as int;
    assert(line[at] == '=');
    assert forall|i: int| 0 <= i < at implies line[i] != '=' by {
        assert(line[i] == key[i]);
    }
    text::until_at(line, '=', at);
    assert(line.take(at) =~= key);
    assert(line.skip(at + 1) =~= id);
    assert forall|i: int| 0 <= i < line.len() implies line[i] != '\n' by {
        if i < at {
            assert(line[i] == key[i]);
        } else if i > at {
            assert(line[i] == id[i - at - 1]);
        }
    }
    text::until_at(line, '\n', line.len() as int);
}

/// A further line behind a file takes precedence over the file.
proof fn lookup_appended(file: Seq<char>, line: Seq<char>, key: Seq<char>)
    requires
        text::until(line, '\n') == line.len(),
    ensures
        lookup(file + "\n"@ + line, key) == prefer(value_in(line, key), lookup(file, key)),
    decreases file.len(),
{
    reveal_strlit("\n");
    let all = file + "\n"@ + line;
    let cut = text::until(file, '\n') as int;
    text::until_is_first(file, '\n');
    assert(all[cut] == '\n');
    assert forall|i: int| 0 <= i < cut implies all[i] != '\n' by {
        assert(all[i] == file[i]);
    }
    text::until_at(all, '\n', cut);
    assert(all.take(cut) =~= file.take(cut));
    if cut == file.len() {
        assert(all.skip(cut + 1) =~= line);
        assert(lookup(line, key) == value_in(line, key));
        assert(file.take(cut) =~= file);
    } else {
        assert(all.skip(cut + 1) =~= file.skip(cut + 1) + "\n"@ + line);
        lookup_appended(file.skip(cut + 1), line, key);
    }
}

/// What a file says of a key once the line for a device is appended.
proof fn lookup_with_line(
    lines: Seq<Seq<char>>,
    key: Seq<char>,
    id: Option<Seq<char>>,
    asked: Seq<char>,
)
    requires
        plain_key(key),
        plain(id),
        asked.len() > 0,
    ensures
        lookup(joined(lines + saved_line(key, id)), asked) == prefer(
            if asked == key {
                id
            } else {
                None
            },
            lookup(joined(lines), asked),
        ),
{
    let more = lines + saved_line(key, id);
    match id {
        Some(id) => {
            let line = key + "="@ + id;
            saved_line_value(key, id, asked);
            assert(more.last() == line);
            assert(more.drop_last() =~= lines);
            if lines.len() == 0 {
                assert(more[0] == line);
                assert(joined(lines) =~= Seq::<char>::empty());
            } else {
                lookup_appended(joined(lines), line, asked);
            }
        },
        None => {
            assert(more =~= lines);
        },
    }
}

/// What is saved is what is restored: reading the file that saves a selection
/// gives back each device that was chosen, and none for each that was not.
pub proof fn saved_selection_is_restored(
    mic: Option<Seq<char>>,
    speaker: Option<Seq<char>>,
    output: Option<Seq<char>>,
)
    requires
        plain(mic),
        plain(speaker),
        plain(output),
    ensures
        lookup(saved(mic, speaker, output), "mic"@) == mic,
        lookup(saved(mic, speaker, output), "speaker"@) == speaker,
        lookup(saved(mic, speaker, output), "output"@) == output,
{
    keys_are_plain();
    reveal_strlit("mic");
    reveal_strlit("speaker");
    reveal_strlit("output");
    let none = Seq::<Seq<char>>::empty();
    let one = none + saved_line("mic"@, mic);
    let two = one + saved_line("speaker"@, speaker);
    assert(saved_line("mic"@, mic) =~= one);
    assert(lookup(joined(none), "mic"@) is None);
    assert(lookup(joined(none), "speaker"@) is None);
    assert(lookup(joined(none), "output"@) is None);
    lookup_with_line(none, "mic"@, mic, "mic"@);
    lookup_with_line(none, "mic"@, mic, "speaker"@);
    lookup_with_line(none, "mic"@, mic, "output"@);
    lookup_with_line(one, "speaker"@, speaker, "mic"@);
    lookup_with_line(one, "speaker"@, speaker, "speaker"@);
    lookup_with_line(one, "speaker"@, speaker, "output"@);
    lookup_with_line(two, "output"@, output, "mic"@);
    lookup_with_line(two, "output"@, output, "speaker"@);
    lookup_with_line(two, "output"@, output, "output"@);
}

/// What stands behind the first `=` of a line is the value of what stands before
/// it, both trimmed; a line without a `=` gives no key a value.
pub proof fn a_line_gives_its_key_a_value(before: Seq<char>, after: Seq<char>, key: Seq<char>)
    requires
        !before.contains('='),
    ensures
        value_in(before + seq!['='] + after, key) == if text::trim(before) == key {
            Some(text::trim(after))
        } else {
            None
        },
        value_in(before, key) is None,
{
    let line = before + seq!['='] + after;
    let at = before.len() as int;
    assert forall|i: int| 0 <= i < at implies line[i] != '=' && before[i] != '=' by {
        assert(line[i] == before[i]);
        assert(before.contains(before[i]));
    }
    text::until_at(line, '=', at);
    text::until_at(before, '=', at);
    assert(line.take(at) =~= before);
    assert(line.skip(at + 1) =~= after);
}

/// A file's last line decides where it has the key, and otherwise what comes
/// before it; in a file of one line that line decides.
pub proof fn the_last_line_decides(
    file: Seq<char>,
    before: Seq<char>,
    after: Seq<char>,
    key: Seq<char>,
)
    requires
        !before.contains('='),
        !before.contains('\n'),
        !after.contains('\n'),
    ensures
        lookup(before + seq!['='] + after, key) == if text::trim(before) == key {
            Some(text::trim(after))
        } else {
            None
        },
        lookup(file + seq!['\n'] + (before + seq!['='] + after), key) == if text::trim(before)
            == key {
            Some(text::trim(after))
        } else {
            lookup(file, key)
        },
        lookup(before, key) is None,
        lookup(file + seq!['\n'] + before, key) == lookup(file, key),
{
    reveal_strlit("\n");
    let line = before + seq!['='] + after;
    a_line_gives_its_key_a_value(before, after, key);
    assert forall|i: int| 0 <= i < line.len() implies line[i] != '\n' by {
        if i < before.len() {
            assert(before.contains(before[i]));
        } else if i > before.len() {
            assert(after.contains(after[i - before.len() - 1]));
        }
    }
    assert forall|i: int| 0 <= i < before.len() implies before[i] != '\n' by {
        assert(before.contains(before[i]));
    }
    text::until_at(line, '\n', line.len() as int);
    text::until_at(before, '\n', before.len() as int);
    assert("\n"@ =~= seq!['\n']);
    lookup_appended(file, line, key);
    lookup_appended(file, before, key);
}

proof fn two_joined(a: Seq<char>, b: Seq<char>)
    ensures
        joined(seq![a]) == a,
        joined(seq![a, b]) == a + "\n"@ + b,
{
    assert(seq![a, b].drop_last() =~= seq![a]);
    assert(joined(seq![a]) == a);
    assert(joined(seq![a, b]) == joined(seq![a, b].drop_last()) + "\n"@ + b);
}

proof fn three_joined(a: Seq<char>, b: Seq<char>, c: Seq<char>)
    ensures
        joined(seq![a, b, c]) == a + "\n"@ + b + "\n"@ + c,
{
    two_joined(a, b);
    assert(seq![a, b, c].drop_last() =~= seq![a, b]);
}

/// The file names each device that is chosen on a line of its own, as it is, in
/// the order of microphone, speaker and output.
pub proof fn the_file_names_each_device(m: Seq<char>, s: Seq<char>, o: Seq<char>)
    ensures
        ({
            let mic = "mic"@ + "="@ + m;
            let speaker = "speaker"@ + "="@ + s;
            let output = "output"@ + "="@ + o;
            &&& saved(Some(m), Some(s), Some(o)) == mic + "\n"@ + speaker + "\n"@ + output
            &&& saved(Some(m), Some(s), None) == mic + "\n"@ + speaker
            &&& saved(Some(m), None, Some(o)) == mic + "\n"@ + output
            &&& saved(None, Some(s), Some(o)) == speaker + "\n"@ + output
            &&& saved(Some(m), None, None) == mic
            &&& saved(None, Some(s), None) == speaker
            &&& saved(None, None, Some(o)) == output
            &&& saved(None, None, None).len() == 0
        }),
{
    let lm = "mic"@ + "="@ + m;
    let ls = "speaker"@ + "="@ + s;
    let lo = "output"@ + "="@ + o;
    let none = Seq::<Seq<char>>::empty();
    three_joined(lm, ls, lo);
    two_joined(lm, ls);
    two_joined(lm, lo);
    two_joined(ls, lo);
    two_joined(lo, lo);
    assert(seq![lm] + seq![ls] + seq![lo] =~= seq![lm, ls, lo]);
    assert(seq![lm] + seq![ls] + none =~= seq![lm, ls]);
    assert(seq![lm] + none + seq![lo] =~= seq![lm, lo]);
    assert(none + seq![ls] + seq![lo] =~= seq![ls, lo]);
    assert(seq![lm] + none + none =~= seq![lm]);
    assert(none + seq![ls] + none =~= seq![ls]);
    assert(none + none + seq![lo] =~= seq![lo]);
    assert(none + none + none =~= none);
}

} // verus!
