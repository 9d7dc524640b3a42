//! The shell environment of the host: which startup file a login shell
//! reads, the idempotent PATH entry appended to it, and the proxy settings
//! handed to the discovery probe.
use crate::error::CoreError;
use crate::text::{base_name, base_name_exec, chars_of, contains_chars, contains_text, occurs_at, pairs_view, same_text};
use vstd::prelude::*;

verus! {

/// The startup file that a shell reads, by the shell's executable path;
/// shells other than zsh and bash are not supported.
pub open spec fn shell_config_file_of(shell: Seq<char>, home: Seq<char>) -> Option<Seq<char>> {
    let name = base_name(shell);
    if name == "zsh"@ {
        Some(home + "/.zshrc"@)
    } else if name == "bash"@ {
        Some(home + "/.bashrc"@)
    } else {
        None
    }
}

/// The startup file of the shell at path `shell` under `home`.
pub fn shell_config_file(shell: &str, home: &str) -> (r: Result<String, CoreError>)
    ensures
        match r {
            Ok(path) => shell_config_file_of(shell@, home@) == Some(path@),
            Err(e) => shell_config_file_of(shell@, home@) is None && e is Configuration,
        },
{
    let name = base_name_exec(shell);
    let mut path = String::from_str(home);
    if same_text(name, "zsh") {
        path.append("/.zshrc");
        Ok(path)
    } else if same_text(name, "bash") {
        path.append("/.bashrc");
        Ok(path)
    } else {
        Err(CoreError::Configuration(String::from_str("the login shell is not supported")))
    }
}

/// Whether the text holds a line that contains `line`.
pub open spec fn has_path_entry(text: Seq<char>, line: Seq<char>) -> bool {
    !line.contains('\n') && contains_text(text, line)
}

/// The line break that precedes appended lines: one where the text does
/// not end with one.
pub open spec fn line_break_before(text: Seq<char>) -> Seq<char> {
    if text.len() > 0 && text.last() != '\n' {
        "\n"@
    } else {
        Seq::empty()
    }
}

/// The comment line written above an appended PATH entry.
pub open spec fn path_entry_marker() -> Seq<char> {
    "# Added by MCP Hub"@
}

/// The startup file's text once it holds `line`: unchanged where a line
/// already contains it, else with the marker comment and `line` appended.
pub open spec fn with_path_entry(text: Seq<char>, line: Seq<char>) -> Seq<char> {
    if has_path_entry(text, line) {
        text
    } else {
        text + line_break_before(text) + path_entry_marker() + "\n"@ + line + "\n"@
    }
}

fn contains_char(v: &Vec<char>, c: char) -> (r: bool)
    ensures
        r == v@.contains(c),
{
    let mut i: usize = 0;
    while i < v.len()
        invariant
            i <= v@.len(),
            forall|j: int| 0 <= j < i ==> v@[j] != c,
        decreases v@.len() - i,
    {
        if v[i] == c {
            assert(v@[i as int] == c);
            return true;
        }
        i = i + 1;
    }
    false
}

/// The new text of a shell startup file (empty where the file does not
/// exist yet) that makes sure it holds `export_line`.
pub fn ensure_path_entry(content: &str, export_line: &str) -> (r: String)
    ensures
        r@ == with_path_entry(content@, export_line@),
{
    let text = chars_of(content);
    let line = chars_of(export_line);
    if !contains_char(&line, '\n') && contains_chars(&text, &line) {
        return String::from_str(content);
    }
    let mut r = String::from_str(content);
    let n = text.len();
    if n > 0 && text[n - 1] != '\n' {
        r.append("\n");
    } else {
        assert(line_break_before(content@) =~= Seq::<char>::empty());
    }
    r.append("# Added by MCP Hub");
    r.append("\n");
    r.append(export_line);
    r.append("\n");
    r
}

/// Adding a PATH entry is idempotent: after one application the file holds
/// the line, and a second application with the same line leaves the file as
/// the first left it. A line that spans two lines is never found, so the
/// line is a single line.
pub proof fn law_path_entry_idempotent(text: Seq<char>, line: Seq<char>)
    requires
        !line.contains('\n'),
    ensures
        has_path_entry(with_path_entry(text, line), line),
        with_path_entry(with_path_entry(text, line), line) == with_path_entry(text, line),
{
    if !has_path_entry(text, line) {
        let pre = text + line_break_before(text) + path_entry_marker() + "\n"@;
        let out = with_path_entry(text, line);
        assert(out == pre + line + "\n"@);
        assert(out.subrange(pre.len() as int, (pre.len() + line.len()) as int) =~= line);
        assert(occurs_at(out, line, pre.len() as int));
    }
}

proof fn lemma_window_has_no_line_break(out: Seq<char>, line: Seq<char>, j: int, q: int)
    requires
        occurs_at(out, line, j),
        !line.contains('\n'),
        j <= q < j + line.len(),
    ensures
        out[q] != '\n',
{
    assert(out.subrange(j, j + line.len())[q - j] == line[q - j]);
    if out[q] == '\n' {
        assert(line.contains(line[q - j]));
    }
}

proof fn lemma_window_inside(out: Seq<char>, part: Seq<char>, start: int, line: Seq<char>, j: int)
    requires
        occurs_at(out, line, j),
        0 <= start <= j,
        j + line.len() <= start + part.len(),
        start + part.len() <= out.len(),
        out.subrange(start, start + part.len()) == part,
    ensures
        occurs_at(part, line, j - start),
{
    let k = j - start;
    assert(part.subrange(k, k + line.len()) =~= out.subrange(j, j + line.len()));
}

/// Where the file does not hold the line yet, it holds it exactly once
/// after the entry is ensured twice over, provided the line is not empty and
/// does not occur in the marker comment.
pub proof fn law_path_entry_occurs_once(text: Seq<char>, line: Seq<char>)
    requires
        line.len() > 0,
        !line.contains('\n'),
        !contains_text(text, line),
        !contains_text(path_entry_marker(), line),
    ensures
        ({
            let out = with_path_entry(with_path_entry(text, line), line);
            &&& exists|i: int| occurs_at(out, line, i)
            &&& forall|i: int, j: int| occurs_at(out, line, i) && occurs_at(out, line, j) ==> i == j
        }),
{
    law_path_entry_idempotent(text, line);
    reveal_strlit("\n");
    let n = line.len() as int;
    let marker = path_entry_marker();
    let head = text + line_break_before(text);
    let a = head + marker + "\n"@;
    let out = a + line + "\n"@;
    let p = a.len() as int;
    let h = head.len() as int;
    assert(with_path_entry(text, line) == out);
    assert(out[p - 1] == '\n');
    assert(out[p + n] == '\n');
    assert(h > 0 ==> out[h - 1] == '\n');
    assert(out.subrange(0, text.len() as int) =~= text);
    assert(out.subrange(h, h + marker.len()) =~= marker);
    assert forall|j: int| occurs_at(out, line, j) implies j == p by {
        if j > p {
            lemma_window_has_no_line_break(out, line, j, p + n);
        } else if j < p {
            if j + n > p - 1 {
                lemma_window_has_no_line_break(out, line, j, p - 1);
            }
            if j >= h {
                lemma_window_inside(out, marker, h, line, j);
            } else {
                if j + n > h - 1 {
                    lemma_window_has_no_line_break(out, line, j, h - 1);
                }
                lemma_window_inside(out, text, 0, line, j);
            }
        }
    }
}

/// The proxy variables that the discovery probe inherits.
pub open spec fn proxy_variables() -> Seq<Seq<char>> {
    seq!["HTTP_PROXY"@, "HTTPS_PROXY"@, "ALL_PROXY"@, "http_proxy"@, "https_proxy"@, "all_proxy"@]
}

/// The names of the proxy variables that the discovery probe inherits.
pub fn proxy_variable_names() -> (r: Vec<&'static str>)
    ensures
        r@.map_values(|s: &'static str| s@) == proxy_variables(),
{
    let mut r: Vec<&'static str> = Vec::new();
    r.push("HTTP_PROXY");
    r.push("HTTPS_PROXY");
    r.push("ALL_PROXY");
    r.push("http_proxy");
    r.push("https_proxy");
    r.push("all_proxy");
    assert(r@.map_values(|s: &'static str| s@) =~= proxy_variables());
    r
}

/// The variables of `vars` whose value is not empty, in order.
pub open spec fn set_variables(vars: Seq<(Seq<char>, Seq<char>)>) -> Seq<(Seq<char>, Seq<char>)>
    decreases vars.len(),
{
    if vars.len() == 0 {
        vars
    } else if vars.last().1.len() > 0 {
        set_variables(vars.drop_last()).push(vars.last())
    } else {
        set_variables(vars.drop_last())
    }
}

/// The proxy settings to pass on: the (name, value) pairs whose value is
/// not empty, in order.
pub fn proxy_settings(values: &Vec<(String, String)>) -> (r: Vec<(String, String)>)
    ensures
        pairs_view(r@) == set_variables(pairs_view(values@)),
{
    let mut r: Vec<(String, String)> = Vec::new();
    let mut i: usize = 0;
    while i < values.len()
        invariant
            i <= values@.len(),
            pairs_view(r@) == set_variables(pairs_view(values@.subrange(0, i as int))),
        decreases values@.len() - i,
    {
        let ghost before = r@;
        proof {
            assert(pairs_view(values@.subrange(0, i + 1)).drop_last() =~= pairs_view(
                values@.subrange(0, i as int),
            ));
        }
        if values[i].1.as_str().unicode_len() > 0 {
            r.push((values[i].0.clone(), values[i].1.clone()));
            assert(pairs_view(r@) =~= pairs_view(before).push(pairs_view(values@.subrange(0, i + 1)).last()));
        }
        i = i + 1;
    }
    assert(values@.subrange(0, i as int) =~= values@);
    r
}

} // verus!
