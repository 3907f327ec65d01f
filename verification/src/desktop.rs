//! The KakaoTalk desktop launcher: desktop entry, autostart entry, terminal command, and where
//! they are installed.
use crate::error::WinbridgeError;
use crate::text::{owned, push_char, push_str, to_chars};
use vstd::prelude::*;

verus! {

broadcast use vstd::string::group_string_axioms;

pub const KAKAOTALK_APPLICATION_ID: &'static str = "dev.winbridge.KakaoTalk";

pub const KAKAOTALK_AUTOSTART_FILE_NAME: &'static str = "dev.winbridge.KakaoTalk.desktop";

pub const KAKAOTALK_COMMAND_NAME: &'static str = "kakaotalk";

pub const KAKAOTALK_DESKTOP_FILE_NAME: &'static str = "dev.winbridge.KakaoTalk.desktop";

pub const KAKAOTALK_ICON_NAME: &'static str = "winbridge-kakaotalk";

/// The icon name under which winbridge's own window and tray appear.
pub const WINBRIDGE_ICON_NAME: &'static str = "winbridge";

/// Where the launcher files were installed.
#[derive(Debug, Clone, PartialEq, Eq)]
pub struct InstalledDesktopEntry {
    pub desktop_entry_path: String,
    pub icon_path: String,
    pub command_path: String,
    pub autostart_entry_path: String,
}

/// How one character of a path is written inside a double-quoted Exec argument.
pub open spec fn exec_escape_char(c: char) -> Seq<char> {
    if c == '\\' || c == '"' || c == '$' || c == '`' {
        seq!['\\', c]
    } else {
        seq![c]
    }
}

/// A path escaped for a double-quoted Exec argument: `\`, `"`, `$` and `` ` `` get a backslash.
pub open spec fn exec_escape(s: Seq<char>) -> Seq<char>
    decreases s.len(),
{
    if s.len() == 0 {
        Seq::empty()
    } else {
        exec_escape_char(s[0]) + exec_escape(s.drop_first())
    }
}

/// A path as a double-quoted Exec argument.
pub open spec fn quote_exec(s: Seq<char>) -> Seq<char> {
    seq!['"'] + exec_escape(s) + seq!['"']
}

/// How one character of a path is written inside a single-quoted shell word.
pub open spec fn shell_escape_char(c: char) -> Seq<char> {
    if c == '\'' {
        seq!['\'', '\\', '\'', '\'']
    } else {
        seq![c]
    }
}

/// The body of a single-quoted shell word: each `'` becomes `'\''`.
pub open spec fn shell_escape(s: Seq<char>) -> Seq<char>
    decreases s.len(),
{
    if s.len() == 0 {
        Seq::empty()
    } else {
        shell_escape_char(s[0]) + shell_escape(s.drop_first())
    }
}

/// A path as a single-quoted POSIX shell word.
pub open spec fn shell_quote(s: Seq<char>) -> Seq<char> {
    seq!['\''] + shell_escape(s) + seq!['\'']
}

/// The text of the desktop entry before the quoted executable.
pub open spec fn desktop_entry_head() -> Seq<char> {
    "[Desktop Entry]\nType=Application\nVersion=1.0\nName=KakaoTalk\nComment=Open Windows KakaoTalk through winbridge\nExec="@
}

/// The text of the desktop entry after the quoted executable.
pub open spec fn desktop_entry_tail() -> Seq<char> {
    " start --mode app --display stable-slots\nIcon=winbridge-kakaotalk\nTerminal=false\nCategories=Network;InstantMessaging;\nStartupNotify=true\nStartupWMClass=dev.winbridge.KakaoTalk\n"@
}

/// The desktop entry that launches winbridge's KakaoTalk app mode.
pub open spec fn desktop_entry(exec: Seq<char>) -> Seq<char> {
    desktop_entry_head() + quote_exec(exec) + desktop_entry_tail()
}

/// The autostart line appended to the desktop entry.
pub open spec fn autostart_line() -> Seq<char> {
    "X-GNOME-Autostart-enabled=true\n"@
}

/// The terminal command script that launches app mode.
pub open spec fn command_script(exec: Seq<char>) -> Seq<char> {
    "#!/usr/bin/env sh\nexec "@ + shell_quote(exec) + " start --mode app --display stable-slots\n"@
}

proof fn lemma_exec_escape_push(s: Seq<char>, c: char)
    ensures
        exec_escape(s.push(c)) == exec_escape(s) + exec_escape_char(c),
    decreases s.len(),
{
    let sc = s.push(c);
    assert(sc[0] == if s.len() == 0 { c } else { s[0] });
    if s.len() == 0 {
        assert(sc.drop_first() == Seq::<char>::empty());
        assert(exec_escape(sc) == exec_escape_char(c) + exec_escape(Seq::<char>::empty()));
        assert(exec_escape_char(c) + Seq::<char>::empty() == exec_escape_char(c));
        assert(Seq::<char>::empty() + exec_escape_char(c) == exec_escape_char(c));
    } else {
        assert(sc.drop_first() == s.drop_first().push(c));
        lemma_exec_escape_push(s.drop_first(), c);
        assert(exec_escape(sc) == exec_escape_char(s[0]) + exec_escape(s.drop_first().push(c)));
        assert(exec_escape_char(s[0]) + (exec_escape(s.drop_first()) + exec_escape_char(c)) == (exec_escape_char(
            s[0],
        ) + exec_escape(s.drop_first())) + exec_escape_char(c));
    }
}

proof fn lemma_shell_escape_push(s: Seq<char>, c: char)
    ensures
        shell_escape(s.push(c)) == shell_escape(s) + shell_escape_char(c),
    decreases s.len(),
{
    let sc = s.push(c);
    assert(sc[0] == if s.len() == 0 { c } else { s[0] });
    if s.len() == 0 {
        assert(sc.drop_first() == Seq::<char>::empty());
        assert(shell_escape(sc) == shell_escape_char(c) + shell_escape(Seq::<char>::empty()));
        assert(shell_escape_char(c) + Seq::<char>::empty() == shell_escape_char(c));
        assert(Seq::<char>::empty() + shell_escape_char(c) == shell_escape_char(c));
    } else {
        assert(sc.drop_first() == s.drop_first().push(c));
        lemma_shell_escape_push(s.drop_first(), c);
        assert(shell_escape(sc) == shell_escape_char(s[0]) + shell_escape(s.drop_first().push(c)));
        assert(shell_escape_char(s[0]) + (shell_escape(s.drop_first()) + shell_escape_char(c)) == (shell_escape_char(
            s[0],
        ) + shell_escape(s.drop_first())) + shell_escape_char(c));
    }
}

/// `path` as a double-quoted Exec argument of a desktop entry.
pub fn quote_exec_path(path: &str) -> (r: String)
    ensures
        r@ == quote_exec(path@),
{
    let cs = to_chars(path);
    let mut out = String::new();
    push_char(&mut out, '"');
    for i in 0..cs.len()
        invariant
            cs@ == path@,
            out@ == seq!['"'] + exec_escape(cs@.take(i as int)),
    {
        let c = cs[i];
        if c == '\\' || c == '"' || c == '$' || c == '`' {
            push_char(&mut out, '\\');
        }
        push_char(&mut out, c);
        proof {
            assert(cs@.take(i + 1) == cs@.take(i as int).push(c));
            lemma_exec_escape_push(cs@.take(i as int), c);
        }
    }
    push_char(&mut out, '"');
    assert(cs@.take(cs.len() as int) == cs@);
    out
}

/// `path` as a single-quoted POSIX shell word.
pub fn shell_quote_path(path: &str) -> (r: String)
    ensures
        r@ == shell_quote(path@),
{
    let cs = to_chars(path);
    let mut out = String::new();
    push_char(&mut out, '\'');
    for i in 0..cs.len()
        invariant
            cs@ == path@,
            out@ == seq!['\''] + shell_escape(cs@.take(i as int)),
    {
        let c = cs[i];
        if c == '\'' {
            push_char(&mut out, '\'');
            push_char(&mut out, '\\');
            push_char(&mut out, '\'');
            push_char(&mut out, '\'');
        } else {
            push_char(&mut out, c);
        }
        proof {
            assert(cs@.take(i + 1) == cs@.take(i as int).push(c));
            lemma_shell_escape_push(cs@.take(i as int), c);
        }
    }
    push_char(&mut out, '\'');
    assert(cs@.take(cs.len() as int) == cs@);
    out
}

/// The desktop entry that opens winbridge's KakaoTalk app mode through `winbridge_executable`.
pub fn kakaotalk_desktop_entry(winbridge_executable: &str) -> (r: String)
    ensures
        r@ == desktop_entry(winbridge_executable@),
{
    let mut out = String::new();
    push_str(
        &mut out,
        "[Desktop Entry]\nType=Application\nVersion=1.0\nName=KakaoTalk\nComment=Open Windows KakaoTalk through winbridge\nExec=",
    );
    let quoted = quote_exec_path(winbridge_executable);
    push_str(&mut out, quoted.as_str());
    push_str(
        &mut out,
        " start --mode app --display stable-slots\nIcon=winbridge-kakaotalk\nTerminal=false\nCategories=Network;InstantMessaging;\nStartupNotify=true\nStartupWMClass=dev.winbridge.KakaoTalk\n",
    );
    out
}

/// The autostart entry: the desktop entry with GNOME autostart enabled.
pub fn kakaotalk_autostart_entry(winbridge_executable: &str) -> (r: String)
    ensures
        r@ == desktop_entry(winbridge_executable@) + autostart_line(),
{
    let mut out = kakaotalk_desktop_entry(winbridge_executable);
    push_str(&mut out, "X-GNOME-Autostart-enabled=true\n");
    out
}

/// The `kakaotalk` terminal command script.
pub fn kakaotalk_command(winbridge_executable: &str) -> (r: String)
    ensures
        r@ == command_script(winbridge_executable@),
{
    let mut out = String::new();
    push_str(&mut out, "#!/usr/bin/env sh\nexec ");
    let quoted = shell_quote_path(winbridge_executable);
    push_str(&mut out, quoted.as_str());
    push_str(&mut out, " start --mode app --display stable-slots\n");
    out
}

/// `Path::join` of a relative component without separators: the component replaces an empty
/// base, and a `/` separates them unless the base already ends with one.
pub open spec fn join_path(base: Seq<char>, component: Seq<char>) -> Seq<char> {
    if base.len() == 0 {
        component
    } else if base.last() == '/' {
        base + component
    } else {
        base + seq!['/'] + component
    }
}

/// Joins a relative component onto a path.
pub fn join(base: &str, component: &str) -> (r: String)
    ensures
        r@ == join_path(base@, component@),
{
    let cs = to_chars(base);
    let mut out = owned(base);
    if cs.len() > 0 && cs[cs.len() - 1] != '/' {
        push_char(&mut out, '/');
    }
    if cs.len() == 0 {
        return owned(component);
    }
    push_str(&mut out, component);
    out
}

/// Where the launcher files go for the given user directories.
pub open spec fn desktop_entry_path(data_local_dir: Seq<char>) -> Seq<char> {
    join_path(join_path(data_local_dir, "applications"@), KAKAOTALK_DESKTOP_FILE_NAME@)
}

pub open spec fn icon_path(data_local_dir: Seq<char>) -> Seq<char> {
    join_path(
        join_path(
            join_path(join_path(join_path(data_local_dir, "icons"@), "hicolor"@), "256x256"@),
            "apps"@,
        ),
        "winbridge-kakaotalk.png"@,
    )
}

pub open spec fn command_path(executable_dir: Seq<char>) -> Seq<char> {
    join_path(executable_dir, KAKAOTALK_COMMAND_NAME@)
}

pub open spec fn autostart_entry_path(config_dir: Seq<char>) -> Seq<char> {
    join_path(join_path(config_dir, "autostart"@), KAKAOTALK_AUTOSTART_FILE_NAME@)
}

/// The message given when there is no directory for user executables.
pub open spec fn no_executable_dir_message() -> Seq<char> {
    "사용자 실행 파일 디렉터리를 확인할 수 없습니다"@
}

/// Where the desktop entry, icon, terminal command and autostart entry are installed; an
/// error when the user has no executable directory.
pub fn kakaotalk_install_layout(
    data_local_dir: &str,
    config_dir: &str,
    executable_dir: Option<&str>,
) -> (r: Result<InstalledDesktopEntry, WinbridgeError>)
    ensures
        executable_dir is None ==> (r matches Err(WinbridgeError::Other(m)) && m@
            == no_executable_dir_message()),
        executable_dir matches Some(dir) ==> (r matches Ok(e) && e.desktop_entry_path@
            == desktop_entry_path(data_local_dir@) && e.icon_path@ == icon_path(
            data_local_dir@,
        ) && e.command_path@ == command_path(dir@) && e.autostart_entry_path@
            == autostart_entry_path(config_dir@)),
{
    let applications = join(data_local_dir, "applications");
    let desktop_entry_path = join(applications.as_str(), KAKAOTALK_DESKTOP_FILE_NAME);
    let icons = join(data_local_dir, "icons");
    let hicolor = join(icons.as_str(), "hicolor");
    let size = join(hicolor.as_str(), "256x256");
    let apps = join(size.as_str(), "apps");
    let icon_path = join(apps.as_str(), "winbridge-kakaotalk.png");
    let executable_dir = match executable_dir {
        Some(dir) => dir,
        None => {
            return Err(WinbridgeError::Other(owned("사용자 실행 파일 디렉터리를 확인할 수 없습니다")));
        },
    };
    let command_path = join(executable_dir, KAKAOTALK_COMMAND_NAME);
    let autostart = join(config_dir, "autostart");
    let autostart_entry_path = join(autostart.as_str(), KAKAOTALK_AUTOSTART_FILE_NAME);
    Ok(InstalledDesktopEntry { desktop_entry_path, icon_path, command_path, autostart_entry_path })
}

/// How a desktop-entry Exec argument between double quotes is read back: a backslash takes the
/// next character literally.
pub open spec fn exec_unescape(s: Seq<char>) -> Seq<char>
    decreases s.len(),
{
    if s.len() == 0 {
        Seq::empty()
    } else if s[0] == '\\' && s.len() >= 2 {
        seq![s[1]] + exec_unescape(s.skip(2))
    } else {
        seq![s[0]] + exec_unescape(s.drop_first())
    }
}

/// How a POSIX shell reads a word made of single-quoted runs and backslash escapes;
/// `quoted` says whether a single-quoted run is open.
pub open spec fn shell_read(s: Seq<char>, quoted: bool) -> Seq<char>
    decreases s.len(),
{
    if s.len() == 0 {
        Seq::empty()
    } else if quoted {
        if s[0] == '\'' {
            shell_read(s.drop_first(), false)
        } else {
            seq![s[0]] + shell_read(s.drop_first(), true)
        }
    } else if s[0] == '\'' {
        shell_read(s.drop_first(), true)
    } else if s[0] == '\\' && s.len() >= 2 {
        seq![s[1]] + shell_read(s.skip(2), false)
    } else {
        seq![s[0]] + shell_read(s.drop_first(), false)
    }
}

proof fn lemma_exec_roundtrip(s: Seq<char>)
    ensures
        exec_unescape(exec_escape(s)) == s,
    decreases s.len(),
{
    if s.len() > 0 {
        let rest = exec_escape(s.drop_first());
        lemma_exec_roundtrip(s.drop_first());
        let e = exec_escape_char(s[0]) + rest;
        if s[0] == '\\' || s[0] == '"' || s[0] == '$' || s[0] == '`' {
            assert(e.skip(2) == rest);
            assert(e[0] == '\\' && e[1] == s[0]);
        } else {
            assert(e.drop_first() == rest);
        }
        assert(seq![s[0]] + s.drop_first() == s);
    }
}

proof fn lemma_shell_read_body(s: Seq<char>, t: Seq<char>)
    ensures
        shell_read(shell_escape(s) + t, true) == s + shell_read(t, true),
    decreases s.len(),
{
    if s.len() == 0 {
        assert(shell_escape(s) + t == t);
        assert(s + shell_read(t, true) == shell_read(t, true));
    } else {
        let rest = shell_escape(s.drop_first()) + t;
        lemma_shell_read_body(s.drop_first(), t);
        let w = shell_escape(s) + t;
        assert(w == shell_escape_char(s[0]) + rest);
        if s[0] == '\'' {
            let w1 = seq!['\\', '\'', '\''] + rest;
            assert(w[0] == '\'');
            assert(w.drop_first() == w1);
            assert(w1[0] == '\\' && w1[1] == '\'' && w1.len() >= 2);
            let w2 = seq!['\''] + rest;
            assert(w1.skip(2) == w2);
            assert(w2[0] == '\'');
            assert(w2.drop_first() == rest);
            assert(shell_read(w2, false) == shell_read(rest, true));
            assert(shell_read(w1, false) == seq!['\''] + shell_read(rest, true));
            assert(shell_read(w, true) == seq!['\''] + shell_read(rest, true));
        } else {
            assert(w[0] == s[0]);
            assert(w.drop_first() == rest);
            assert(shell_read(w, true) == seq![s[0]] + shell_read(rest, true));
        }
        assert(seq![s[0]] + (s.drop_first() + shell_read(t, true)) == (seq![s[0]] + s.drop_first())
            + shell_read(t, true));
        assert(seq![s[0]] + s.drop_first() == s);
    }
}

/// Reading the quoted Exec argument back gives the executable path: the quoting loses nothing.
pub proof fn exec_quoting_round_trips(path: Seq<char>)
    ensures
        exec_unescape(exec_escape(path)) == path,
        quote_exec(path) == seq!['"'] + exec_escape(path) + seq!['"'],
{
    lemma_exec_roundtrip(path);
}

/// A POSIX shell reads the single-quoted word back as the executable path, whatever quotes the
/// path holds.
pub proof fn shell_quoting_round_trips(path: Seq<char>)
    ensures
        shell_read(shell_quote(path), false) == path,
{
    let q = shell_quote(path);
    assert(q[0] == '\'');
    assert(q.drop_first() == shell_escape(path) + seq!['\'']);
    lemma_shell_read_body(path, seq!['\'']);
    let one = seq!['\''];
    assert(one[0] == '\'');
    assert(one.drop_first() == Seq::<char>::empty());
    assert(shell_read(one, true) == shell_read(Seq::<char>::empty(), false));
    assert(path + Seq::<char>::empty() == path);
}

} // verus!
