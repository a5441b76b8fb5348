use vstd::prelude::*;
use vstd::string::StrSliceExecFns;
use vstd::string::StringExecFns;

use crate::clock::current_timestamp_ms;
use crate::text::{decimal, decimal_text, same_text, trim_text, trimmed, views};

verus! {

pub open spec fn ascii_alnum(c: char) -> bool {
    ('a' <= c && c <= 'z') || ('A' <= c && c <= 'Z') || ('0' <= c && c <= '9')
}

/// The characters a branch or tag name may use.
pub open spec fn git_ref_char(c: char) -> bool {
    ascii_alnum(c) || c == '_' || c == '-' || c == '/' || c == '.'
}

/// The characters an image reference may use.
pub open spec fn image_ref_char(c: char) -> bool {
    ascii_alnum(c) || c == '.' || c == '_' || c == '-' || c == '/' || c == ':' || c == '@'
}

/// The characters a container name or identifier may use.
pub open spec fn identifier_char(c: char) -> bool {
    ascii_alnum(c) || c == '.' || c == '_' || c == '-'
}

/// The character classes the checks below accept.
#[derive(Debug, Clone, Copy, PartialEq, Eq, Structural)]
pub enum SafeClass {
    GitRef,
    ImageRef,
    Identifier,
}

pub open spec fn class_allows(class: SafeClass, c: char) -> bool {
    match class {
        SafeClass::GitRef => git_ref_char(c),
        SafeClass::ImageRef => image_ref_char(c),
        SafeClass::Identifier => identifier_char(c),
    }
}

/// Non-empty, at most `max` characters, each of the class.
pub open spec fn safe_text(s: Seq<char>, max: nat, class: SafeClass) -> bool {
    &&& s.len() > 0
    &&& s.len() <= max
    &&& forall|i: int| 0 <= i < s.len() ==> class_allows(class, #[trigger] s[i])
}

fn char_allowed(class: SafeClass, c: char) -> (r: bool)
    ensures
        r == class_allows(class, c),
{
    let alnum = ('a' <= c && c <= 'z') || ('A' <= c && c <= 'Z') || ('0' <= c && c <= '9');
    match class {
        SafeClass::GitRef => alnum || c == '_' || c == '-' || c == '/' || c == '.',
        SafeClass::ImageRef => alnum || c == '.' || c == '_' || c == '-' || c == '/' || c == ':' || c == '@',
        SafeClass::Identifier => alnum || c == '.' || c == '_' || c == '-',
    }
}

fn is_safe_text(value: &str, max: usize, class: SafeClass) -> (r: bool)
    ensures
        r == safe_text(value@, max as nat, class),
{
    let n = value.unicode_len();
    if n == 0 || n > max {
        return false;
    }
    let mut i: usize = 0;
    while i < n
        invariant
            n == value@.len(),
            i <= n,
            forall|j: int| 0 <= j < i ==> class_allows(class, #[trigger] value@[j]),
        decreases n - i,
    {
        if !char_allowed(class, value.get_char(i)) {
            return false;
        }
        i = i + 1;
    }
    true
}

/// A branch or tag name safe to hand to git: 1 to 128 ASCII letters, digits, `_ - / .`.
/// (Every accepted character is ASCII, so characters and bytes count alike.)
pub fn is_safe_git_ref(value: &str) -> (r: bool)
    ensures
        r == safe_text(value@, 128, SafeClass::GitRef),
{
    is_safe_text(value, 128, SafeClass::GitRef)
}

/// An image reference safe to hand to docker: 1 to 256 ASCII letters, digits, `. _ - / : @`.
pub fn is_safe_docker_image_ref(value: &str) -> (r: bool)
    ensures
        r == safe_text(value@, 256, SafeClass::ImageRef),
{
    is_safe_text(value, 256, SafeClass::ImageRef)
}

/// A container name or identifier: 1 to 128 ASCII letters, digits, `. _ -`.
pub fn is_safe_identifier(value: &str) -> (r: bool)
    ensures
        r == safe_text(value@, 128, SafeClass::Identifier),
{
    is_safe_text(value, 128, SafeClass::Identifier)
}

/// The remote name to use: the given one trimmed, or `origin` when blank.
pub fn normalize_remote_name(value: &str) -> (r: String)
    ensures
        r@ == if trimmed(value@).len() == 0 { "origin"@ } else { trimmed(value@) },
{
    let t = trim_text(value);
    if t.as_str().unicode_len() == 0 {
        proof { reveal_strlit("origin"); }
        String::from_str("origin")
    } else {
        t
    }
}

/// The pieces of `s` between line feeds, in order (one more than there are line feeds).
pub open spec fn split_lf(s: Seq<char>) -> Seq<Seq<char>>
    decreases s.len(),
{
    if s.len() == 0 {
        seq![Seq::empty()]
    } else {
        let p = split_lf(s.drop_last());
        if s.last() == '\n' {
            p.push(Seq::empty())
        } else {
            p.update(p.len() - 1, p.last().push(s.last()))
        }
    }
}

proof fn lemma_split_lf_nonempty(s: Seq<char>)
    ensures
        split_lf(s).len() >= 1,
    decreases s.len(),
{
    if s.len() > 0 {
        lemma_split_lf_nonempty(s.drop_last());
    }
}

/// The trimmed lines of `pieces` that are not blank, in order.
pub open spec fn kept_lines(pieces: Seq<Seq<char>>) -> Seq<Seq<char>>
    decreases pieces.len(),
{
    if pieces.len() == 0 {
        Seq::empty()
    } else {
        let rest = kept_lines(pieces.drop_last());
        if trimmed(pieces.last()).len() > 0 { rest.push(trimmed(pieces.last())) } else { rest }
    }
}

/// The lines of `raw`, split at line feeds and trimmed, blank ones left out.
pub fn split_non_empty_lines(raw: &str) -> (r: Vec<String>)
    ensures
        views(r@) == kept_lines(split_lf(raw@)),
{
    let n = raw.unicode_len();
    let mut pieces: Vec<String> = Vec::new();
    let mut start: usize = 0;
    let mut i: usize = 0;
    assert(raw@.subrange(0, 0) =~= Seq::<char>::empty());
    assert(raw@.subrange(0, 0) =~= raw@.subrange(0, 0));
    while i < n
        invariant
            n == raw@.len(),
            start <= i <= n,
            views(pieces@).push(raw@.subrange(start as int, i as int)) == split_lf(raw@.subrange(0, i as int)),
        decreases n - i,
    {
        let c = raw.get_char(i);
        let ghost before = raw@.subrange(0, i as int);
        let ghost after = raw@.subrange(0, i + 1);
        assert(after.drop_last() =~= before);
        assert(after.last() == c);
        proof { lemma_split_lf_nonempty(before); }
        if c == '\n' {
            let piece = String::from_str(raw.substring_char(start, i));
            pieces.push(piece);
            start = i + 1;
            assert(raw@.subrange(start as int, i + 1) =~= Seq::<char>::empty());
            assert(views(pieces@).push(raw@.subrange(start as int, i + 1)) =~= split_lf(after));
        } else {
            assert(raw@.subrange(start as int, i + 1) =~= raw@.subrange(start as int, i as int).push(c));
            assert(views(pieces@).push(raw@.subrange(start as int, i + 1)) =~= split_lf(after));
        }
        i = i + 1;
    }
    assert(raw@.subrange(0, n as int) =~= raw@);
    let last = String::from_str(raw.substring_char(start, n));
    let ghost head = views(pieces@);
    pieces.push(last);
    let ghost all = views(pieces@);
    assert(all =~= head.push(raw@.subrange(start as int, n as int)));
    assert(all == split_lf(raw@));
    let mut out: Vec<String> = Vec::new();
    let mut k: usize = 0;
    while k < pieces.len()
        invariant
            k <= pieces@.len(),
            all == views(pieces@),
            views(out@) == kept_lines(all.subrange(0, k as int)),
        decreases pieces.len() - k,
    {
        assert(all.subrange(0, k + 1).drop_last() =~= all.subrange(0, k as int));
        let t = trim_text(pieces[k].as_str());
        if t.as_str().unicode_len() > 0 {
            out.push(t);
            assert(views(out@) =~= kept_lines(all.subrange(0, k + 1)));
        }
        k = k + 1;
    }
    assert(all.subrange(0, pieces@.len() as int) =~= all);
    out
}

/// The arguments of `docker pull <image>`, once the reference is safe.
pub fn build_run_image_pull_args(image_ref: &str) -> (r: Result<Vec<String>, String>)
    ensures
        r is Ok <==> safe_text(image_ref@, 256, SafeClass::ImageRef),
        r is Ok ==> views(r->Ok_0@) == seq!["pull"@, image_ref@],
{
    if !is_safe_docker_image_ref(image_ref) {
        return Err(String::from_str("镜像引用包含非法字符。"));
    }
    proof { reveal_strlit("pull"); }
    let args = vec![String::from_str("pull"), String::from_str(image_ref)];
    assert(views(args@) =~= seq!["pull"@, image_ref@]);
    Ok(args)
}

/// The docker actions that need a container or image to act on.
pub open spec fn needs_target(action: Seq<char>) -> bool {
    action == "run"@ || action == "start"@ || action == "stop"@ || action == "restart"@
        || action == "logs"@ || action == "rm"@ || action == "rmi"@
}

/// The arguments for a docker action that takes no target; none for other actions.
pub open spec fn plain_action_args(action: Seq<char>) -> Option<Seq<Seq<char>>> {
    if action == "version"@ {
        Some(seq!["--version"@])
    } else if action == "info"@ {
        Some(seq!["info"@])
    } else if action == "ps"@ {
        Some(seq!["ps"@, "--format"@, "table {{.ID}}\t{{.Names}}\t{{.Status}}\t{{.Ports}}"@])
    } else if action == "images"@ {
        Some(seq!["images"@, "--format"@, "table {{.Repository}}\t{{.Tag}}\t{{.ID}}\t{{.Size}}"@])
    } else if action == "stats"@ {
        Some(seq!["stats"@, "--no-stream"@, "--format"@, "table {{.Name}}\t{{.CPUPerc}}\t{{.MemUsage}}\t{{.NetIO}}"@])
    } else if action == "system_df"@ {
        Some(seq!["system"@, "df"@])
    } else if action == "compose_ls"@ {
        Some(seq!["compose"@, "ls"@])
    } else {
        None
    }
}

/// The arguments for a docker action on `target`; `run` starts it detached under `run_name`.
pub open spec fn target_action_args(action: Seq<char>, target: Seq<char>, run_name: Seq<char>) -> Seq<Seq<char>> {
    if action == "run"@ {
        seq!["run"@, "-d"@, "--name"@, run_name, target]
    } else if action == "logs"@ {
        seq!["logs"@, "--tail"@, "200"@, target]
    } else {
        seq![action, target]
    }
}

fn strings(words: &[&str]) -> (r: Vec<String>)
    ensures
        r@.len() == words@.len(),
        forall|i: int| 0 <= i < words@.len() ==> (#[trigger] r@[i])@ == words@[i]@,
{
    let mut v: Vec<String> = Vec::new();
    let mut i: usize = 0;
    while i < words.len()
        invariant
            i <= words@.len(),
            v@.len() == i,
            forall|j: int| 0 <= j < i ==> (#[trigger] v@[j])@ == words@[j]@,
        decreases words.len() - i,
    {
        v.push(String::from_str(words[i]));
        i = i + 1;
    }
    v
}

/// The arguments of a docker action, with `run_name` naming a container that
/// `run` starts. Actions on a container need a safe identifier as target;
/// unknown actions are refused.
pub fn build_docker_args_named(action: &str, target: Option<&str>, run_name: &str) -> (r: Result<Vec<String>, String>)
    ensures
        plain_action_args(action@) is Some ==> r is Ok && views(r->Ok_0@) == plain_action_args(action@)->0,
        plain_action_args(action@) is None && !needs_target(action@) ==> r is Err,
        needs_target(action@) ==> match target {
            None => r is Err,
            Some(t) => if safe_text(t@, 128, SafeClass::Identifier) {
                r is Ok && views(r->Ok_0@) == target_action_args(action@, t@, run_name@)
            } else {
                r is Err
            },
        },
{
    proof {
        reveal_strlit("version"); reveal_strlit("info"); reveal_strlit("ps"); reveal_strlit("images");
        reveal_strlit("stats"); reveal_strlit("system_df"); reveal_strlit("compose_ls");
        reveal_strlit("run"); reveal_strlit("start"); reveal_strlit("stop"); reveal_strlit("restart");
        reveal_strlit("logs"); reveal_strlit("rm"); reveal_strlit("rmi");
        reveal_strlit("--version"); reveal_strlit("--format"); reveal_strlit("--no-stream");
        reveal_strlit("system"); reveal_strlit("df"); reveal_strlit("compose"); reveal_strlit("ls");
        reveal_strlit("-d"); reveal_strlit("--name"); reveal_strlit("--tail"); reveal_strlit("200");
        reveal_strlit("table {{.ID}}\t{{.Names}}\t{{.Status}}\t{{.Ports}}");
        reveal_strlit("table {{.Repository}}\t{{.Tag}}\t{{.ID}}\t{{.Size}}");
        reveal_strlit("table {{.Name}}\t{{.CPUPerc}}\t{{.MemUsage}}\t{{.NetIO}}");
        assert("version"@[0] == 'v' && "info"@[0] == 'i' && "ps"@[0] == 'p' && "images"@[0] == 'i');
        assert("stats"@[0] == 's' && "stats"@[3] == 't' && "system_df"@[0] == 's' && "system_df"@[1] == 'y');
        assert("compose_ls"@[0] == 'c');
        assert("run"@[0] == 'r' && "start"@[0] == 's' && "start"@[1] == 't' && "start"@[3] == 'r');
        assert("stop"@[0] == 's' && "stop"@[1] == 't' && "stop"@[2] == 'o' && "restart"@[0] == 'r');
        assert("logs"@[0] == 'l' && "rm"@[0] == 'r' && "rmi"@[0] == 'r');
    }
    let plain: Option<Vec<String>> = if same_text(action, "version") {
        Some(strings(&["--version"]))
    } else if same_text(action, "info") {
        Some(strings(&["info"]))
    } else if same_text(action, "ps") {
        Some(strings(&["ps", "--format", "table {{.ID}}\t{{.Names}}\t{{.Status}}\t{{.Ports}}"]))
    } else if same_text(action, "images") {
        Some(strings(&["images", "--format", "table {{.Repository}}\t{{.Tag}}\t{{.ID}}\t{{.Size}}"]))
    } else if same_text(action, "stats") {
        Some(strings(&["stats", "--no-stream", "--format", "table {{.Name}}\t{{.CPUPerc}}\t{{.MemUsage}}\t{{.NetIO}}"]))
    } else if same_text(action, "system_df") {
        Some(strings(&["system", "df"]))
    } else if same_text(action, "compose_ls") {
        Some(strings(&["compose", "ls"]))
    } else {
        None
    };
    if let Some(args) = plain {
        assert(views(args@) =~= plain_action_args(action@)->0);
        return Ok(args);
    }
    let targeted = same_text(action, "run") || same_text(action, "start") || same_text(action, "stop")
        || same_text(action, "restart") || same_text(action, "logs") || same_text(action, "rm")
        || same_text(action, "rmi");
    if !targeted {
        let mut m = String::from_str("未支持的 Docker 动作: ");
        m.append(action);
        return Err(m);
    }
    let t = match target {
        None => {
            let mut m = String::from_str("动作 ");
            m.append(action);
            m.append(" 需要提供容器名称或 ID");
            return Err(m);
        },
        Some(t) => t,
    };
    if !is_safe_identifier(t) {
        return Err(String::from_str("容器标识不合法,仅允许字母、数字、点、下划线、中划线"));
    }
    let args = if same_text(action, "run") {
        strings(&["run", "-d", "--name", run_name, t])
    } else if same_text(action, "logs") {
        strings(&["logs", "--tail", "200", t])
    } else {
        strings(&[action, t])
    };
    assert(views(args@) =~= target_action_args(action@, t@, run_name@));
    Ok(args)
}

/// The arguments of a docker action; a container that `run` starts is named
/// `dep-run-<milliseconds now>`.
pub fn build_docker_args(action: &str, target: Option<&str>) -> (r: Result<Vec<String>, String>)
    ensures
        plain_action_args(action@) is Some ==> r is Ok && views(r->Ok_0@) == plain_action_args(action@)->0,
        plain_action_args(action@) is None && !needs_target(action@) ==> r is Err,
        needs_target(action@) ==> match target {
            None => r is Err,
            Some(t) => if safe_text(t@, 128, SafeClass::Identifier) {
                r is Ok && exists|ms: u64| views(r->Ok_0@)
                    == #[trigger] target_action_args(action@, t@, "dep-run-"@ + decimal(ms as nat))
            } else {
                r is Err
            },
        },
{
    proof { reveal_strlit("dep-run-"); }
    let ms = current_timestamp_ms();
    let mut name = String::from_str("dep-run-");
    let digits = decimal_text(ms);
    name.append(digits.as_str());
    build_docker_args_named(action, target, name.as_str())
}

/// What a finished process printed, and its exit code.
#[derive(Debug, Clone)]
pub struct ProcessCapture {
    pub stdout: String,
    pub stderr: String,
    pub exit_code: i32,
}

/// The decimal notation of a signed number.
pub open spec fn signed_decimal(n: int) -> Seq<char> {
    if n < 0 { "-"@ + decimal((-n) as nat) } else { decimal(n as nat) }
}

fn signed_decimal_text(n: i32) -> (r: String)
    ensures
        r@ == signed_decimal(n as int),
{
    let wide = n as i64;
    if wide < 0 {
        proof { reveal_strlit("-"); }
        let mut s = String::from_str("-");
        let digits = decimal_text((-wide) as u64);
        s.append(digits.as_str());
        s
    } else {
        decimal_text(wide as u64)
    }
}

/// A transcript of one command: the command line and exit code, then the
/// trimmed standard output and the trimmed standard error, each only when
/// not blank, separated by blank lines.
pub open spec fn transcript(command: Seq<char>, args: Seq<Seq<char>>, c: ProcessCapture) -> Seq<char> {
    let head = "$ "@ + command + " "@ + crate::text::join_words(args) + "\nexit="@ + signed_decimal(c.exit_code as int);
    let with_out = if trimmed(c.stdout@).len() > 0 { head + "\n\n"@ + trimmed(c.stdout@) } else { head };
    if trimmed(c.stderr@).len() > 0 { with_out + "\n\n[stderr]\n"@ + trimmed(c.stderr@) } else { with_out }
}

pub fn format_command_output(command: &str, args: &Vec<String>, capture: &ProcessCapture) -> (r: String)
    ensures
        r@ == transcript(command@, views(args@), *capture),
{
    proof {
        reveal_strlit("$ ");
        reveal_strlit(" ");
        reveal_strlit("\nexit=");
        reveal_strlit("\n\n");
        reveal_strlit("\n\n[stderr]\n");
    }
    let mut s = String::from_str("$ ");
    s.append(command);
    s.append(" ");
    let joined = crate::text::join_with_spaces(args);
    s.append(joined.as_str());
    s.append("\nexit=");
    let code = signed_decimal_text(capture.exit_code);
    s.append(code.as_str());
    let out = trim_text(capture.stdout.as_str());
    if out.as_str().unicode_len() > 0 {
        s.append("\n\n");
        s.append(out.as_str());
    }
    let err = trim_text(capture.stderr.as_str());
    if err.as_str().unicode_len() > 0 {
        s.append("\n\n[stderr]\n");
        s.append(err.as_str());
    }
    s
}

/// The most telling output of a failed command: its error output, else its
/// standard output, trimmed; a placeholder when both are blank.
pub fn prefer_error_output(capture: &ProcessCapture) -> (r: String)
    ensures
        r@ == if trimmed(capture.stderr@).len() > 0 {
            trimmed(capture.stderr@)
        } else if trimmed(capture.stdout@).len() > 0 {
            trimmed(capture.stdout@)
        } else {
            "无输出"@
        },
{
    let err = trim_text(capture.stderr.as_str());
    if err.as_str().unicode_len() > 0 {
        return err;
    }
    let out = trim_text(capture.stdout.as_str());
    if out.as_str().unicode_len() > 0 {
        return out;
    }
    proof { reveal_strlit("无输出"); }
    String::from_str("无输出")
}

} // verus!
