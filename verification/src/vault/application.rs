//! Reading freedesktop desktop entries into [`AppData`] values.
use vstd::prelude::*;
use crate::text::{
    chars_contain, chars_end_with, chars_eq, chars_start_with, find_char, find_char_exec,
    lemma_find_char_at, rfind_char, rfind_char_exec, split_char, split_on, string_from_chars,
    string_from_range, to_chars, trim_bounds, trimmed,
};
use crate::vault::{AppData, AppDataView, clone_opt_string};

verus! {

broadcast use vstd::string::group_string_axioms;

// ----------------------------------------------------------------------------
// Exec lines
// ----------------------------------------------------------------------------

/// An `Exec` value with its field codes resolved: `%%` stands for `%`, any
/// other `%` together with the character after it is dropped, and double
/// quotes are dropped.
pub open spec fn exec_unescape(s: Seq<char>) -> Seq<char>
    decreases s.len(),
{
    if s.len() == 0 {
        Seq::empty()
    } else if s[0] == '%' {
        if s.len() >= 2 && s[1] == '%' {
            seq!['%'] + exec_unescape(s.subrange(2, s.len() as int))
        } else if s.len() >= 2 {
            exec_unescape(s.subrange(2, s.len() as int))
        } else {
            Seq::empty()
        }
    } else if s[0] == '"' {
        exec_unescape(s.drop_first())
    } else {
        seq![s[0]] + exec_unescape(s.drop_first())
    }
}

/// The command line a desktop entry's `Exec` value runs.
pub open spec fn exec_command(s: Seq<char>) -> Seq<char> {
    trimmed(exec_unescape(s))
}

fn exec_unescape_chars(s: &Vec<char>) -> (out: Vec<char>)
    ensures
        out@ == exec_unescape(s@),
{
    let mut out: Vec<char> = Vec::new();
    let n = s.len();
    let mut i: usize = 0;
    assert(s@.subrange(0, n as int) =~= s@);
    while i < n
        invariant
            i <= n == s@.len(),
            exec_unescape(s@) == out@ + exec_unescape(s@.subrange(i as int, n as int)),
        decreases n - i,
    {
        let ghost rest = s@.subrange(i as int, n as int);
        let c = s[i];
        if c == '%' {
            if i + 1 < n && s[i + 1] == '%' {
                out.push('%');
                assert(rest.subrange(2, rest.len() as int) =~= s@.subrange(i + 2, n as int));
                assert(exec_unescape(s@) == out@ + exec_unescape(s@.subrange(i + 2, n as int)));
                i = i + 2;
            } else if i + 1 < n {
                assert(rest.subrange(2, rest.len() as int) =~= s@.subrange(i + 2, n as int));
                i = i + 2;
            } else {
                assert(s@.subrange(n as int, n as int) =~= Seq::<char>::empty());
                i = n;
            }
        } else if c == '"' {
            assert(rest.drop_first() =~= s@.subrange(i + 1, n as int));
            i = i + 1;
        } else {
            out.push(c);
            assert(rest.drop_first() =~= s@.subrange(i + 1, n as int));
            assert(exec_unescape(s@) == out@ + exec_unescape(s@.subrange(i + 1, n as int)));
            i = i + 1;
        }
    }
    assert(s@.subrange(n as int, n as int) =~= Seq::<char>::empty());
    assert(out@ + Seq::<char>::empty() =~= out@);
    out
}

/// Turns the value of an `Exec` key into the command to run: field codes
/// such as `%U` are removed, `%%` becomes `%`, double quotes are removed and
/// surrounding white space is trimmed.
pub fn get_exec_command(input: &str) -> (cmd: String)
    ensures
        cmd@ == exec_command(input@),
{
    let cs = to_chars(input);
    let out = exec_unescape_chars(&cs);
    let (i, j) = trim_bounds(&out);
    string_from_range(&out, i, j)
}

// ----------------------------------------------------------------------------
// Paths
// ----------------------------------------------------------------------------

/// A path without its last `/`-separated part (and without that `/`); the
/// empty path when it has no `/`.
pub open spec fn without_last_part(path: Seq<char>) -> Seq<char> {
    match rfind_char(path, '/') {
        Some(k) => path.subrange(0, k),
        None => Seq::empty(),
    }
}

/// Drops the last `/`-separated part of a path.
pub fn remove_last(path: &str) -> (parent: String)
    ensures
        parent@ == without_last_part(path@),
{
    let cs = to_chars(path);
    match rfind_char_exec(&cs, '/') {
        Some(k) => string_from_range(&cs, 0, k),
        None => String::new(),
    }
}

/// One component of a file path: a named part, or `None` for the root, `.`,
/// `..` or a prefix.
pub open spec fn is_named_applications(part: Option<Seq<char>>) -> bool {
    part == Some("applications"@)
}

/// The suffix `.desktop`.
pub open spec fn ends_with_desktop(s: Seq<char>) -> bool {
    s.len() >= ".desktop"@.len() && s.subrange(s.len() - ".desktop"@.len(), s.len() as int)
        == ".desktop"@
}

/// The state of the walk over a path's components that builds a desktop
/// file ID: the index of the last `applications` component seen (or -1) and
/// the ID so far.
pub struct DesktopIdWalk {
    pub app_index: int,
    pub id: Seq<char>,
}

/// The walk over the first `parts.len()` components.
pub open spec fn desktop_id_walk(parts: Seq<Option<Seq<char>>>) -> DesktopIdWalk
    decreases parts.len(),
{
    if parts.len() == 0 {
        DesktopIdWalk { app_index: -1, id: Seq::empty() }
    } else {
        let w = desktop_id_walk(parts.drop_last());
        let index = parts.len() - 1;
        let part = parts.last();
        let app_index = if is_named_applications(part) { index } else { w.app_index };
        let id = if app_index >= 0 && index > app_index {
            match part {
                Some(name) => if ends_with_desktop(name) {
                    w.id + name
                } else {
                    w.id + name + seq!['-']
                },
                None => w.id,
            }
        } else {
            w.id
        };
        DesktopIdWalk { app_index, id }
    }
}

/// The desktop file ID of the file at the given path: the components after
/// the last `applications` directory joined with `-`.
pub open spec fn desktop_id(parts: Seq<Option<Seq<char>>>) -> Seq<char> {
    desktop_id_walk(parts).id
}

/// Computes the desktop file ID from the components of the file's path,
/// as the freedesktop specification defines it.
pub fn get_desktop_id(parts: &Vec<Option<String>>) -> (id: String)
    requires
        parts@.len() < i32::MAX,
    ensures
        id@ == desktop_id(parts.deep_view()),
{
    let ghost dv = parts.deep_view();
    let applications = to_chars("applications");
    let suffix = to_chars(".desktop");
    let mut out: Vec<char> = Vec::new();
    let mut app_index: i64 = -1;
    let mut index: usize = 0;
    while index < parts.len()
        invariant
            index <= parts@.len() < i32::MAX,
            dv == parts.deep_view(),
            applications@ == "applications"@,
            suffix@ == ".desktop"@,
            desktop_id_walk(dv.take(index as int)).app_index == app_index as int,
            desktop_id_walk(dv.take(index as int)).id == out@,
            -1 <= app_index < index,
        decreases parts@.len() - index,
    {
        let ghost prev = dv.take(index as int);
        assert(dv.take(index + 1).drop_last() =~= prev);
        assert(dv.take(index + 1).last() == dv[index as int]);
        match &parts[index] {
            Some(name) => {
                let cs = to_chars(name.as_str());
                if chars_eq(&cs, &applications) {
                    app_index = index as i64;
                }
                if (index as i64) > app_index && app_index >= 0 {
                    let mut k: usize = 0;
                    let ghost before = out@;
                    while k < cs.len()
                        invariant
                            k <= cs@.len(),
                            out@ == before + cs@.take(k as int),
                        decreases cs@.len() - k,
                    {
                        out.push(cs[k]);
                        assert(cs@.take(k + 1) =~= cs@.take(k as int).push(cs@[k as int]));
                        k = k + 1;
                    }
                    assert(cs@.take(cs@.len() as int) =~= cs@);
                    let ends = chars_end_with(&cs, &suffix);
                    if !ends {
                        out.push('-');
                    }
                }
            },
            None => {},
        }
        index = index + 1;
    }
    assert(dv.take(parts@.len() as int) =~= dv);
    string_from_chars(&out)
}

} // verus!

verus! {

// ----------------------------------------------------------------------------
// Desktop entries
// ----------------------------------------------------------------------------

/// Why a desktop entry could not be read.
#[derive(Debug, Clone, Copy, PartialEq, Eq, Structural)]
pub enum DesktopEntryError {
    /// A key or section came before the `[Desktop Entry]` group.
    MainEntryNotFound,
    /// A line is neither a comment, a group header nor a `key=value` pair.
    MissingSeparator,
    /// No `Name` was given by the entry.
    MissingName,
}

/// The table of icon names already looked up in the icon themes, with the
/// path found for each (if any).
pub open spec fn icon_lookup(icons: Seq<(Seq<char>, Option<Seq<char>>)>, name: Seq<char>) -> Option<
    Seq<char>,
>
    decreases icons.len(),
{
    if icons.len() == 0 {
        None
    } else if icons[0].0 == name {
        icons[0].1
    } else {
        icon_lookup(icons.drop_first(), name)
    }
}

/// What has been read of a desktop entry so far.
pub struct EntryScan {
    pub main_found: bool,
    pub main_pushed: bool,
    pub primary_name: Seq<char>,
    pub name: Seq<char>,
    pub image: Option<Seq<char>>,
    pub exec_cmd: Option<Seq<char>>,
    pub entries: Seq<Option<AppDataView>>,
}

/// The result of reading some lines of a desktop entry.
pub enum ScanState {
    /// Reading goes on.
    Running(EntryScan),
    /// The entry is not shown (hidden, not displayed, or not an application).
    Hidden,
    /// The entry is malformed.
    Failed(DesktopEntryError),
}

pub open spec fn initial_scan() -> EntryScan {
    EntryScan {
        main_found: false,
        main_pushed: false,
        primary_name: Seq::empty(),
        name: Seq::empty(),
        image: None,
        exec_cmd: None,
        entries: Seq::empty(),
    }
}

/// The main entry of the file as read so far.
pub open spec fn primary_entry(st: EntryScan, id: Seq<char>) -> AppDataView {
    AppDataView {
        desktop_file_id: id,
        is_primary: true,
        image_path: st.image,
        name: st.name,
        exec_comm: st.exec_cmd,
    }
}

/// An action entry: its name is the main entry's name, ` - ` and the
/// action's name.
pub open spec fn action_entry(st: EntryScan, id: Seq<char>) -> AppDataView {
    AppDataView {
        desktop_file_id: id,
        is_primary: false,
        image_path: st.image,
        name: st.primary_name + " - "@ + st.name,
        exec_comm: st.exec_cmd,
    }
}

/// Closes the group read so far: the first group closed is the main entry,
/// later ones are actions.
pub open spec fn close_group(st: EntryScan, id: Seq<char>) -> EntryScan {
    if !st.main_pushed {
        EntryScan {
            main_pushed: true,
            primary_name: st.name,
            entries: st.entries.push(Some(primary_entry(st, id))),
            ..st
        }
    } else {
        EntryScan { entries: st.entries.push(Some(action_entry(st, id))), ..st }
    }
}

/// Reads one `key=value` line.
pub open spec fn scan_pair(
    st: EntryScan,
    key: Seq<char>,
    val: Seq<char>,
    icons: Seq<(Seq<char>, Option<Seq<char>>)>,
) -> ScanState {
    if key == "Type"@ {
        if val == "Application"@ {
            ScanState::Running(st)
        } else {
            ScanState::Hidden
        }
    } else if key == "Name"@ {
        ScanState::Running(EntryScan { name: val, ..st })
    } else if key == "Icon"@ {
        let image = if val.contains('/') {
            Some(val)
        } else {
            icon_lookup(icons, val)
        };
        ScanState::Running(EntryScan { image, ..st })
    } else if key == "Exec"@ {
        ScanState::Running(EntryScan { exec_cmd: Some(exec_command(val)), ..st })
    } else if key == "NoDisplay"@ || key == "Hidden"@ {
        if val == "true"@ {
            ScanState::Hidden
        } else {
            ScanState::Running(st)
        }
    } else {
        ScanState::Running(st)
    }
}

/// Reads one line of a desktop entry.
pub open spec fn scan_line(
    st: EntryScan,
    line: Seq<char>,
    id: Seq<char>,
    icons: Seq<(Seq<char>, Option<Seq<char>>)>,
) -> ScanState {
    if line.len() == 0 || line[0] == '#' {
        ScanState::Running(st)
    } else if line.len() >= "[Desktop Entry]"@.len() && line.subrange(
        0,
        "[Desktop Entry]"@.len() as int,
    ) == "[Desktop Entry]"@ {
        ScanState::Running(EntryScan { main_found: true, ..st })
    } else if !st.main_found {
        ScanState::Failed(DesktopEntryError::MainEntryNotFound)
    } else if line[0] == '[' {
        ScanState::Running(close_group(st, id))
    } else {
        match find_char(line, '=') {
            None => ScanState::Failed(DesktopEntryError::MissingSeparator),
            Some(k) => scan_pair(
                st,
                line.subrange(0, k),
                line.subrange(k + 1, line.len() as int),
                icons,
            ),
        }
    }
}

/// Reads the given lines in order.
pub open spec fn scan_lines(
    lines: Seq<Seq<char>>,
    id: Seq<char>,
    icons: Seq<(Seq<char>, Option<Seq<char>>)>,
) -> ScanState
    decreases lines.len(),
{
    if lines.len() == 0 {
        ScanState::Running(initial_scan())
    } else {
        match scan_lines(lines.drop_last(), id, icons) {
            ScanState::Running(st) => scan_line(st, lines.last(), id, icons),
            other => other,
        }
    }
}

/// The entries a desktop file yields: the main entry and one per action, or
/// a single `None` when the entry is not to be shown.
pub open spec fn desktop_entries(
    lines: Seq<Seq<char>>,
    id: Seq<char>,
    icons: Seq<(Seq<char>, Option<Seq<char>>)>,
) -> Result<Seq<Option<AppDataView>>, DesktopEntryError> {
    match scan_lines(lines, id, icons) {
        ScanState::Hidden => Ok(seq![None]),
        ScanState::Failed(e) => Err(e),
        ScanState::Running(st) => {
            let closed = close_group(st, id);
            if st.name.len() == 0 {
                Err(DesktopEntryError::MissingName)
            } else {
                Ok(closed.entries)
            }
        },
    }
}

/// The icon names of a desktop entry that may have to be looked up in the
/// icon themes: the values of its `Icon=` lines that are not paths.
pub open spec fn icon_names(lines: Seq<Seq<char>>) -> Seq<Seq<char>>
    decreases lines.len(),
{
    if lines.len() == 0 {
        Seq::empty()
    } else {
        let before = icon_names(lines.drop_last());
        let line = lines.last();
        match find_char(line, '=') {
            Some(k) => {
                let key = line.subrange(0, k);
                let val = line.subrange(k + 1, line.len() as int);
                if key == "Icon"@ && !val.contains('/') {
                    before.push(val)
                } else {
                    before
                }
            },
            None => before,
        }
    }
}

/// Lists the icon names the lines of a desktop file refer to, so that they
/// can be looked up in the icon themes before the file is read with
/// [`desktop_entry_extracter`].
pub fn icon_names_to_resolve(lines: &Vec<String>) -> (names: Vec<String>)
    ensures
        names.deep_view() == icon_names(lines.deep_view()),
{
    let ghost lv = lines.deep_view();
    let icon_key = to_chars("Icon");
    let mut names: Vec<String> = Vec::new();
    let mut i: usize = 0;
    assert(names.deep_view() =~= icon_names(lv.take(0)));
    while i < lines.len()
        invariant
            i <= lines@.len(),
            lv == lines.deep_view(),
            icon_key@ == "Icon"@,
            names.deep_view() == icon_names(lv.take(i as int)),
        decreases lines@.len() - i,
    {
        assert(lv.take(i + 1).drop_last() =~= lv.take(i as int));
        assert(lv.take(i + 1).last() == lv[i as int]);
        let line = to_chars(lines[i].as_str());
        match find_char_exec(&line, '=') {
            Some(k) => {
                let key = string_from_range(&line, 0, k);
                let val = string_from_range(&line, k + 1, line.len());
                let key_c = to_chars(key.as_str());
                let val_c = to_chars(val.as_str());
                if chars_eq(&key_c, &icon_key) && !chars_contain(&val_c, '/') {
                    let ghost before = names.deep_view();
                    names.push(val);
                    assert(names.deep_view() =~= before.push(val_c@));
                }
            },
            None => {},
        }
        i = i + 1;
    }
    assert(lv.take(lines@.len() as int) =~= lv);
    names
}

/// The exec form of [`EntryScan`].
struct ScanVars {
    main_found: bool,
    main_pushed: bool,
    primary_name: String,
    name: String,
    image: Option<String>,
    exec_cmd: Option<String>,
    entries: Vec<Option<AppData>>,
}

impl ScanVars {
    spec fn view(&self) -> EntryScan {
        EntryScan {
            main_found: self.main_found,
            main_pushed: self.main_pushed,
            primary_name: self.primary_name@,
            name: self.name@,
            image: self.image.deep_view(),
            exec_cmd: self.exec_cmd.deep_view(),
            entries: self.entries@.map_values(|e: Option<AppData>| opt_app_view(e)),
        }
    }
}

pub open spec fn opt_app_view(e: Option<AppData>) -> Option<AppDataView> {
    match e {
        Some(a) => Some(a@),
        None => None,
    }
}

/// The result of reading one line.
enum LineOutcome {
    Continue,
    Hidden,
    Failed(DesktopEntryError),
}

/// Looks an icon name up in the table.
fn lookup_icon(icons: &Vec<(String, Option<String>)>, name: &Vec<char>) -> (r: Option<String>)
    ensures
        r.deep_view() == icon_lookup(icons.deep_view(), name@),
{
    let ghost dv = icons.deep_view();
    assert(dv.skip(0) =~= dv);
    let mut i: usize = 0;
    while i < icons.len()
        invariant
            i <= icons@.len(),
            dv == icons.deep_view(),
            icon_lookup(dv, name@) == icon_lookup(dv.skip(i as int), name@),
        decreases icons@.len() - i,
    {
        let ghost rest = dv.skip(i as int);
        assert(rest[0] == dv[i as int]);
        assert(rest.drop_first() =~= dv.skip(i + 1));
        let key = to_chars(icons[i].0.as_str());
        if chars_eq(&key, name) {
            return clone_opt_string(&icons[i].1);
        }
        i = i + 1;
    }
    assert(dv.skip(i as int).len() == 0);
    None
}

/// Builds the entry that closes the current group.
fn close_group_exec(st: &mut ScanVars, id: &String)
    ensures
        final(st)@ == close_group(old(st)@, id@),
{
    if !st.main_pushed {
        st.main_pushed = true;
        st.primary_name = st.name.clone();
        let e = AppData {
            desktop_file_id: id.clone(),
            is_primary: true,
            image_path: clone_opt_string(&st.image),
            name: st.name.clone(),
            exec_comm: clone_opt_string(&st.exec_cmd),
        };
        let ghost before = st.entries@;
        st.entries.push(Some(e));
        proof {
            assert(st.entries@.map_values(|e: Option<AppData>| opt_app_view(e)) =~= before.map_values(
                |e: Option<AppData>| opt_app_view(e),
            ).push(Some(primary_entry(old(st)@, id@))));
        }
    } else {
        let mut full = st.primary_name.clone();
        full.append(" - ");
        full.append(st.name.as_str());
        let e = AppData {
            desktop_file_id: id.clone(),
            is_primary: false,
            image_path: clone_opt_string(&st.image),
            name: full,
            exec_comm: clone_opt_string(&st.exec_cmd),
        };
        let ghost before = st.entries@;
        st.entries.push(Some(e));
        proof {
            assert(st.entries@.map_values(|e: Option<AppData>| opt_app_view(e)) =~= before.map_values(
                |e: Option<AppData>| opt_app_view(e),
            ).push(Some(action_entry(old(st)@, id@))));
        }
    }
}

/// Reads one `key=value` pair.
fn scan_pair_exec(
    st: &mut ScanVars,
    key: &Vec<char>,
    val: &Vec<char>,
    icons: &Vec<(String, Option<String>)>,
) -> (out: LineOutcome)
    ensures
        match scan_pair(old(st)@, key@, val@, icons.deep_view()) {
            ScanState::Running(s) => out is Continue && final(st)@ == s,
            ScanState::Hidden => out is Hidden,
            ScanState::Failed(e) => out == LineOutcome::Failed(e),
        },
{
    let type_key = to_chars("Type");
    let name_key = to_chars("Name");
    let icon_key = to_chars("Icon");
    let exec_key = to_chars("Exec");
    let no_display_key = to_chars("NoDisplay");
    let hidden_key = to_chars("Hidden");
    if chars_eq(key, &type_key) {
        let application = to_chars("Application");
        if chars_eq(val, &application) {
            LineOutcome::Continue
        } else {
            LineOutcome::Hidden
        }
    } else if chars_eq(key, &name_key) {
        st.name = string_from_chars(val);
        LineOutcome::Continue
    } else if chars_eq(key, &icon_key) {
        if chars_contain(val, '/') {
            st.image = Some(string_from_chars(val));
        } else {
            st.image = lookup_icon(icons, val);
        }
        LineOutcome::Continue
    } else if chars_eq(key, &exec_key) {
        let raw = string_from_chars(val);
        st.exec_cmd = Some(get_exec_command(raw.as_str()));
        LineOutcome::Continue
    } else if chars_eq(key, &no_display_key) || chars_eq(key, &hidden_key) {
        let true_word = to_chars("true");
        if chars_eq(val, &true_word) {
            LineOutcome::Hidden
        } else {
            LineOutcome::Continue
        }
    } else {
        LineOutcome::Continue
    }
}

/// Reads one line.
fn scan_line_exec(
    st: &mut ScanVars,
    line: &Vec<char>,
    id: &String,
    icons: &Vec<(String, Option<String>)>,
) -> (out: LineOutcome)
    ensures
        match scan_line(old(st)@, line@, id@, icons.deep_view()) {
            ScanState::Running(s) => out is Continue && final(st)@ == s,
            ScanState::Hidden => out is Hidden,
            ScanState::Failed(e) => out == LineOutcome::Failed(e),
        },
{
    let header = to_chars("[Desktop Entry]");
    if line.len() == 0 || line[0] == '#' {
        LineOutcome::Continue
    } else if chars_start_with(line, &header) {
        st.main_found = true;
        LineOutcome::Continue
    } else if !st.main_found {
        LineOutcome::Failed(DesktopEntryError::MainEntryNotFound)
    } else if line[0] == '[' {
        close_group_exec(st, id);
        LineOutcome::Continue
    } else {
        match find_char_exec(line, '=') {
            None => LineOutcome::Failed(DesktopEntryError::MissingSeparator),
            Some(k) => {
                let key_s = string_from_range(line, 0, k);
                let val_s = string_from_range(line, k + 1, line.len());
                let key = to_chars(key_s.as_str());
                let val = to_chars(val_s.as_str());
                scan_pair_exec(st, &key, &val, icons)
            },
        }
    }
}

/// Reads the lines of a desktop file into its entries, or the reason they
/// cannot be read.
fn read_desktop_entry(
    lines: &Vec<String>,
    desktop_file_id: &String,
    icons: &Vec<(String, Option<String>)>,
) -> (r: Result<Vec<Option<AppData>>, DesktopEntryError>)
    ensures
        match r {
            Ok(v) => desktop_entries(lines.deep_view(), desktop_file_id@, icons.deep_view())
                == Ok::<Seq<Option<AppDataView>>, DesktopEntryError>(
                v@.map_values(|e: Option<AppData>| opt_app_view(e)),
            ),
            Err(e) => desktop_entries(lines.deep_view(), desktop_file_id@, icons.deep_view())
                == Err::<Seq<Option<AppDataView>>, DesktopEntryError>(e),
        },
{
    let ghost lv = lines.deep_view();
    let ghost iv = icons.deep_view();
    let mut st = ScanVars {
        main_found: false,
        main_pushed: false,
        primary_name: String::new(),
        name: String::new(),
        image: None,
        exec_cmd: None,
        entries: Vec::new(),
    };
    assert(st@.entries =~= Seq::<Option<AppDataView>>::empty());
    assert(lv.take(0) =~= Seq::<Seq<char>>::empty());
    let mut i: usize = 0;
    while i < lines.len()
        invariant
            i <= lines@.len(),
            lv == lines.deep_view(),
            iv == icons.deep_view(),
            scan_lines(lv.take(i as int), desktop_file_id@, iv) == ScanState::Running(st@),
        decreases lines@.len() - i,
    {
        assert(lv.take(i + 1).drop_last() =~= lv.take(i as int));
        assert(lv.take(i + 1).last() == lv[i as int]);
        let line = to_chars(lines[i].as_str());
        match scan_line_exec(&mut st, &line, desktop_file_id, icons) {
            LineOutcome::Continue => {},
            LineOutcome::Hidden => {
                proof {
                    lemma_scan_stops(lv, desktop_file_id@, iv, i as int + 1, ScanState::Hidden);
                }
                let mut v: Vec<Option<AppData>> = Vec::new();
                v.push(None);
                assert(v@.map_values(|e: Option<AppData>| opt_app_view(e)) =~= seq![
                    None::<AppDataView>,
                ]);
                return Ok(v);
            },
            LineOutcome::Failed(e) => {
                proof {
                    lemma_scan_stops(lv, desktop_file_id@, iv, i as int + 1, ScanState::Failed(e));
                }
                return Err(e);
            },
        }
        i = i + 1;
    }
    assert(lv.take(lines@.len() as int) =~= lv);
    let no_name = st.name.as_str().is_empty();
    close_group_exec(&mut st, desktop_file_id);
    if no_name {
        Err(DesktopEntryError::MissingName)
    } else {
        Ok(st.entries)
    }
}

/// Why the lines of a desktop file cannot be read, if they cannot.
pub open spec fn desktop_entry_fault(
    lines: Seq<Seq<char>>,
    id: Seq<char>,
    icons: Seq<(Seq<char>, Option<Seq<char>>)>,
) -> Option<DesktopEntryError> {
    match desktop_entries(lines, id, icons) {
        Ok(_) => None,
        Err(e) => Some(e),
    }
}

/// Tells why the lines of a desktop file cannot be read: a key or group
/// before the `[Desktop Entry]` group, a line that is not a `key=value`
/// pair, or no name; `None` when they can be read.
pub fn desktop_entry_error(
    lines: &Vec<String>,
    desktop_file_id: &String,
    icons: &Vec<(String, Option<String>)>,
) -> (e: Option<DesktopEntryError>)
    ensures
        e == desktop_entry_fault(lines.deep_view(), desktop_file_id@, icons.deep_view()),
{
    match read_desktop_entry(lines, desktop_file_id, icons) {
        Ok(_) => None,
        Err(e) => Some(e),
    }
}

/// Reads the lines of a desktop file into its application entries; the
/// lines must be readable ([`desktop_entry_error`] gives `None`).
///
/// `desktop_file_id` is the file's desktop file ID and `icons` the icon names
/// of [`icon_names_to_resolve`] with the path the icon themes give for each.
/// The result holds the main entry followed by one entry per action group,
/// or a single `None` when the entry is hidden, not to be displayed or not
/// an application.
pub fn desktop_entry_extracter(
    lines: &Vec<String>,
    desktop_file_id: &String,
    icons: &Vec<(String, Option<String>)>,
) -> (v: Vec<Option<AppData>>)
    requires
        desktop_entries(lines.deep_view(), desktop_file_id@, icons.deep_view()) is Ok,
    ensures
        desktop_entries(lines.deep_view(), desktop_file_id@, icons.deep_view())
            == Ok::<Seq<Option<AppDataView>>, DesktopEntryError>(
            v@.map_values(|e: Option<AppData>| opt_app_view(e)),
        ),
{
    match read_desktop_entry(lines, desktop_file_id, icons) {
        Ok(v) => v,
        Err(_) => Vec::new(),
    }
}

/// Once reading stops (hidden or failed), later lines do not change the
/// outcome.
proof fn lemma_scan_stops(
    lines: Seq<Seq<char>>,
    id: Seq<char>,
    icons: Seq<(Seq<char>, Option<Seq<char>>)>,
    n: int,
    stopped: ScanState,
)
    requires
        0 <= n <= lines.len(),
        !(stopped is Running),
        scan_lines(lines.take(n), id, icons) == stopped,
    ensures
        scan_lines(lines, id, icons) == stopped,
    decreases lines.len() - n,
{
    if n < lines.len() {
        assert(lines.take(n + 1).drop_last() =~= lines.take(n));
        lemma_scan_stops(lines, id, icons, n + 1, stopped);
    } else {
        assert(lines.take(n) =~= lines);
    }
}

/// An entry is an action of the application named `primary`: it is not a
/// main entry and its name starts with the application's name and ` - `.
pub open spec fn is_action_of(e: Option<AppDataView>, primary: Seq<char>) -> bool {
    e matches Some(a) && !a.is_primary && (primary + " - "@).is_prefix_of(a.name)
}

/// The entries of a desktop file: the first is the main entry, every later
/// one is an action of it.
pub open spec fn main_then_actions(entries: Seq<Option<AppDataView>>) -> bool {
    entries.len() > 0 ==> {
        &&& (entries[0] matches Some(m) && m.is_primary)
        &&& forall|i: int|
            1 <= i < entries.len() ==> is_action_of(#[trigger] entries[i], entries[0]->0.name)
    }
}

/// What reading keeps of the entries closed so far.
spec fn scan_inv(st: EntryScan) -> bool {
    &&& st.main_pushed == (st.entries.len() > 0)
    &&& st.entries.len() > 0 ==> (st.entries[0] matches Some(m) && m.is_primary && m.name
        == st.primary_name)
    &&& forall|i: int| 1 <= i < st.entries.len() ==> is_action_of(#[trigger] st.entries[i], st.primary_name)
}

proof fn lemma_close_group_inv(st: EntryScan, id: Seq<char>)
    requires
        scan_inv(st),
    ensures
        scan_inv(close_group(st, id)),
{
    let c = close_group(st, id);
    if st.main_pushed {
        let a = action_entry(st, id);
        assert((st.primary_name + " - "@).is_prefix_of(a.name)) by {
            assert(a.name.subrange(0, (st.primary_name + " - "@).len() as int) =~= st.primary_name
                + " - "@);
        }
        assert forall|i: int| 1 <= i < c.entries.len() implies is_action_of(
            #[trigger] c.entries[i],
            c.primary_name,
        ) by {
            if i < st.entries.len() {
                assert(c.entries[i] == st.entries[i]);
            }
        }
    }
}

proof fn lemma_scan_line_inv(
    st: EntryScan,
    line: Seq<char>,
    id: Seq<char>,
    icons: Seq<(Seq<char>, Option<Seq<char>>)>,
)
    requires
        scan_inv(st),
    ensures
        scan_line(st, line, id, icons) matches ScanState::Running(s) ==> scan_inv(s),
{
    lemma_close_group_inv(st, id);
}

proof fn lemma_scan_lines_inv(
    lines: Seq<Seq<char>>,
    id: Seq<char>,
    icons: Seq<(Seq<char>, Option<Seq<char>>)>,
)
    ensures
        scan_lines(lines, id, icons) matches ScanState::Running(s) ==> scan_inv(s),
    decreases lines.len(),
{
    if lines.len() > 0 {
        lemma_scan_lines_inv(lines.drop_last(), id, icons);
        if let ScanState::Running(st) = scan_lines(lines.drop_last(), id, icons) {
            lemma_scan_line_inv(st, lines.last(), id, icons);
        }
    }
}

/// A `key=value` line of an entry (after its `[Desktop Entry]` header) is
/// read as the pair split at the FIRST `=`: the key is the text before it and
/// the value everything after it, so that a value may itself hold `=`.
pub proof fn lemma_pair_split_at_first_equals(
    st: EntryScan,
    key: Seq<char>,
    val: Seq<char>,
    id: Seq<char>,
    icons: Seq<(Seq<char>, Option<Seq<char>>)>,
)
    requires
        st.main_found,
        key.len() > 0,
        key[0] != '#',
        key[0] != '[',
        !key.contains('='),
    ensures
        scan_line(st, key + "="@ + val, id, icons) == scan_pair(st, key, val, icons),
{
    reveal_strlit("=");
    reveal_strlit("[Desktop Entry]");
    let line = key + "="@ + val;
    assert(line[0] == key[0]);
    assert forall|k: int| 0 <= k < key.len() implies #[trigger] line[k] != '=' by {
        assert(line[k] == key[k]);
        if key[k] == '=' {
            assert(key.contains('='));
        }
    }
    assert(line[key.len() as int] == '=');
    lemma_find_char_at(line, '=', key.len() as int);
    assert(line.subrange(0, key.len() as int) =~= key);
    assert(line.subrange(key.len() as int + 1, line.len() as int) =~= val);
    if line.len() >= "[Desktop Entry]"@.len() {
        assert(line.subrange(0, "[Desktop Entry]"@.len() as int)[0] == line[0]);
        assert("[Desktop Entry]"@[0] == '[');
        assert(line.subrange(0, "[Desktop Entry]"@.len() as int) != "[Desktop Entry]"@);
    }
}

/// An `Exec` line sets the entry's command to the value after the first
/// `=`, with field codes and quotes removed, whatever `=` the value holds.
pub proof fn lemma_exec_line_keeps_whole_value(
    st: EntryScan,
    val: Seq<char>,
    id: Seq<char>,
    icons: Seq<(Seq<char>, Option<Seq<char>>)>,
)
    requires
        st.main_found,
    ensures
        scan_line(st, "Exec="@ + val, id, icons) == ScanState::Running(
            EntryScan { exec_cmd: Some(exec_command(val)), ..st },
        ),
{
    reveal_strlit("Exec=");
    reveal_strlit("Exec");
    reveal_strlit("=");
    reveal_strlit("Type");
    reveal_strlit("Name");
    reveal_strlit("Icon");
    let key = "Exec"@;
    assert("Exec="@ + val =~= key + "="@ + val);
    assert(!key.contains('=')) by {
        if key.contains('=') {
            let i = choose|i: int| 0 <= i < key.len() && key[i] == '=';
            assert(key[i] != '=');
        }
    }
    lemma_pair_split_at_first_equals(st, key, val, id, icons);
    assert(key != "Type"@ && key != "Name"@ && key != "Icon"@);
}

/// A desktop file that is read yields either a single `None` (it is not to
/// be shown) or its main entry followed by its actions, each named after
/// the application.
pub proof fn lemma_desktop_entries_shape(
    lines: Seq<Seq<char>>,
    id: Seq<char>,
    icons: Seq<(Seq<char>, Option<Seq<char>>)>,
)
    ensures
        (desktop_entries(lines, id, icons) matches Ok(v) ==> v == seq![None::<AppDataView>]
            || (v.len() > 0 && main_then_actions(v))),
{
    lemma_scan_lines_inv(lines, id, icons);
    if let ScanState::Running(st) = scan_lines(lines, id, icons) {
        lemma_close_group_inv(st, id);
        let c = close_group(st, id);
        assert(c.entries.len() > 0);
        if c.entries.len() > 0 {
            assert(c.entries[0]->0.name == c.primary_name);
        }
    }
}

} // verus!

verus! {

// ----------------------------------------------------------------------------
// Icon themes
// ----------------------------------------------------------------------------

/// The theme name `gsettings get org.gnome.desktop.interface icon-theme`
/// prints, without its quotes and line break: when the output starts with a
/// quote, its first character and its last two are dropped.
pub open spec fn theme_name_from_output(out: Seq<char>) -> Seq<char> {
    if out.len() > 0 && out[0] == '\'' {
        out.subrange(1, out.len() - 2)
    } else {
        out
    }
}

/// The output can be cut as above: a quoted output has at least three
/// characters.
pub open spec fn theme_output_well_formed(out: Seq<char>) -> bool {
    out.len() > 0 && out[0] == '\'' ==> out.len() >= 3
}

/// Extracts the icon theme name from the output of `gsettings`.
pub fn theme_name_from_gsettings(output: &str) -> (theme: String)
    requires
        theme_output_well_formed(output@),
    ensures
        theme@ == theme_name_from_output(output@),
{
    let cs = to_chars(output);
    if cs.len() > 0 && cs[0] == '\'' {
        string_from_range(&cs, 1, cs.len() - 2)
    } else {
        string_from_chars(&cs)
    }
}

/// The directories searched for icons: `.icons` in the home directory,
/// `icons/` under each data directory, and `/usr/share/pixmaps/`; none
/// without a home.
pub open spec fn icon_dirs(home: Option<Seq<char>>, xdg_data_dirs: Seq<char>) -> Seq<Seq<char>> {
    match home {
        None => Seq::empty(),
        Some(h) => seq![h + "/.icons"@] + split_on(xdg_data_dirs, ':').map_values(
            |d: Seq<char>| d + "/icons/"@,
        ) + seq!["/usr/share/pixmaps/"@],
    }
}

/// Lists the directories searched for icons, from the values of `$HOME`
/// (if set) and `$XDG_DATA_DIRS`.
pub fn icon_search_dirs(home: Option<&str>, xdg_data_dirs: &str) -> (dirs: Vec<String>)
    ensures
        dirs.deep_view() == icon_dirs(
            match home {
                Some(h) => Some(h@),
                None => None,
            },
            xdg_data_dirs@,
        ),
{
    let mut dirs: Vec<String> = Vec::new();
    match home {
        None => {
            assert(dirs.deep_view() =~= Seq::<Seq<char>>::empty());
        },
        Some(h) => {
            let mut home_icons = h.to_owned();
            home_icons.append("/.icons");
            dirs.push(home_icons);
            let parts = split_char(xdg_data_dirs, ':');
            let ghost pv = parts.deep_view();
            let mut i: usize = 0;
            while i < parts.len()
                invariant
                    i <= parts@.len(),
                    pv == parts.deep_view(),
                    dirs.deep_view() == seq![h@ + "/.icons"@] + pv.take(i as int).map_values(
                        |d: Seq<char>| d + "/icons/"@,
                    ),
                decreases parts@.len() - i,
            {
                let mut d = parts[i].clone();
                d.append("/icons/");
                let ghost before = dirs.deep_view();
                dirs.push(d);
                assert(pv.take(i + 1).map_values(|d: Seq<char>| d + "/icons/"@) =~= pv.take(
                    i as int,
                ).map_values(|d: Seq<char>| d + "/icons/"@).push(pv[i as int] + "/icons/"@));
                assert(dirs.deep_view() =~= before.push(pv[i as int] + "/icons/"@));
                i = i + 1;
            }
            assert(pv.take(parts@.len() as int) =~= pv);
            let ghost before = dirs.deep_view();
            dirs.push("/usr/share/pixmaps/".to_owned());
            assert(dirs.deep_view() =~= before + seq!["/usr/share/pixmaps/"@]);
        },
    }
    dirs
}

/// The order in which (directory, theme) pairs are tried for an icon: every
/// directory with the user's theme, then every directory with `hicolor`.
pub open spec fn icon_plan(dirs: Seq<Seq<char>>, theme: Seq<char>) -> Seq<(Seq<char>, Seq<char>)> {
    dirs.map_values(|d: Seq<char>| (d, theme)) + dirs.map_values(|d: Seq<char>| (d, "hicolor"@))
}

/// Lists the (directory, theme) pairs in the order they are searched; the
/// first pair that holds the icon gives its path.
pub fn icon_search_plan(dirs: &Vec<String>, theme: &str) -> (plan: Vec<(String, String)>)
    ensures
        plan.deep_view() == icon_plan(dirs.deep_view(), theme@),
{
    let ghost dv = dirs.deep_view();
    let mut plan: Vec<(String, String)> = Vec::new();
    let mut i: usize = 0;
    assert(plan.deep_view() =~= dv.take(0).map_values(|d: Seq<char>| (d, theme@)));
    while i < dirs.len()
        invariant
            i <= dirs@.len(),
            dv == dirs.deep_view(),
            plan.deep_view() == dv.take(i as int).map_values(|d: Seq<char>| (d, theme@)),
        decreases dirs@.len() - i,
    {
        let ghost before = plan.deep_view();
        plan.push((dirs[i].clone(), theme.to_owned()));
        assert(dv.take(i + 1).map_values(|d: Seq<char>| (d, theme@)) =~= dv.take(i as int).map_values(
            |d: Seq<char>| (d, theme@),
        ).push((dv[i as int], theme@)));
        assert(plan.deep_view() =~= before.push((dv[i as int], theme@)));
        i = i + 1;
    }
    assert(dv.take(dirs@.len() as int) =~= dv);
    let ghost first = plan.deep_view();
    let mut j: usize = 0;
    assert(plan.deep_view() =~= first + dv.take(0).map_values(|d: Seq<char>| (d, "hicolor"@)));
    while j < dirs.len()
        invariant
            j <= dirs@.len(),
            dv == dirs.deep_view(),
            plan.deep_view() == first + dv.take(j as int).map_values(|d: Seq<char>| (d, "hicolor"@)),
        decreases dirs@.len() - j,
    {
        let ghost before = plan.deep_view();
        plan.push((dirs[j].clone(), "hicolor".to_owned()));
        assert(dv.take(j + 1).map_values(|d: Seq<char>| (d, "hicolor"@)) =~= dv.take(
            j as int,
        ).map_values(|d: Seq<char>| (d, "hicolor"@)).push((dv[j as int], "hicolor"@)));
        assert(plan.deep_view() =~= before.push((dv[j as int], "hicolor"@)));
        j = j + 1;
    }
    assert(dv.take(dirs@.len() as int) =~= dv);
    plan
}

/// The data directories scanned for `applications/` folders: those of
/// `$XDG_DATA_DIRS` followed by the user's local share directory.
pub open spec fn data_dirs(xdg_data_dirs: Seq<char>) -> Seq<Seq<char>> {
    split_on(xdg_data_dirs, ':').push("/home/ramayen/.local/share/"@)
}

/// Lists the data directories scanned for desktop files.
pub fn app_data_dirs(xdg_data_dirs: &str) -> (dirs: Vec<String>)
    ensures
        dirs.deep_view() == data_dirs(xdg_data_dirs@),
{
    let mut dirs = split_char(xdg_data_dirs, ':');
    let ghost before = dirs.deep_view();
    dirs.push("/home/ramayen/.local/share/".to_owned());
    assert(dirs.deep_view() =~= before.push("/home/ramayen/.local/share/"@));
    dirs
}

} // verus!
