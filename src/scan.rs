use vstd::prelude::*;
use vstd::string::StringExecFns;

verus! {

#[verifier::external_type_specification]
#[verifier::external_body]
pub struct ExPattern(glob::Pattern);

#[verifier::external_type_specification]
#[verifier::external_body]
pub struct ExPatternError(glob::PatternError);

/// Whether glob accepts `pattern` as a well-formed expression.
pub uninterp spec fn glob_valid(pattern: Seq<char>) -> bool;

/// Whether the glob expression `pattern` matches the whole of `path`, under
/// glob's default match options.
pub uninterp spec fn glob_match(pattern: Seq<char>, path: Seq<char>) -> bool;

/// Relies on `glob::Pattern::new`: it compiles the expression, and fails
/// exactly when the expression is malformed.
#[verifier::external_body]
fn compile_glob(text: &str) -> (r: Result<glob::Pattern, glob::PatternError>)
    ensures
        r is Ok <==> glob_valid(text@),
{
    glob::Pattern::new(text)
}

/// Whether `s` is an absolute path expression: it starts with the separator.
pub open spec fn is_absolute(s: Seq<char>) -> bool {
    s.len() > 0 && s[0] == '/'
}

/// `s` without one trailing separator, if it has one.
pub open spec fn strip_trailing_separator(s: Seq<char>) -> Seq<char> {
    if s.len() > 0 && s.last() == '/' {
        s.drop_last()
    } else {
        s
    }
}

/// Why the exclude expressions were refused.
#[derive(Clone, Copy, Debug, PartialEq, Eq, Structural)]
pub enum ScanError {
    /// An exclude expression is not absolute.
    InvalidInput,
    /// An exclude expression is not a well-formed glob expression.
    BadPattern,
}

/// A compiled exclude expression, with the text it was compiled from.
pub struct ExcludePattern {
    text: String,
    compiled: glob::Pattern,
}

impl ExcludePattern {
    /// The expression this pattern was compiled from.
    pub closed spec fn text(&self) -> Seq<char> {
        self.text@
    }

    /// The expression this pattern was compiled from.
    pub fn as_str(&self) -> (r: &str)
        ensures
            r@ == self.text(),
    {
        self.text.as_str()
    }
}

/// Relies on `glob::Pattern::matches` of the pattern that `glob::Pattern::new`
/// compiled from `p`'s text (the only way an `ExcludePattern` is built).
#[verifier::external_body]
fn pattern_matches(p: &ExcludePattern, path: &str) -> (r: bool)
    ensures
        r == glob_match(p.text@, path@),
{
    p.compiled.matches(path)
}

/// Whether some pattern of `patterns` matches `path`.
pub open spec fn excluded_by(patterns: Seq<ExcludePattern>, path: Seq<char>) -> bool {
    exists|i: int| 0 <= i < patterns.len() && glob_match(#[trigger] patterns[i].text(), path)
}

/// Whether `s` starts with the path separator.
pub fn starts_with_separator(s: &str) -> (r: bool)
    ensures
        r == is_absolute(s@),
{
    let n = s.unicode_len();
    n > 0 && s.get_char(0) == '/'
}

/// `s` without one trailing path separator, if it has one.
pub fn strip_separator_suffix(s: &str) -> (r: String)
    ensures
        r@ == strip_trailing_separator(s@),
{
    let n = s.unicode_len();
    if n > 0 && s.get_char(n - 1) == '/' {
        let t = s.substring_char(0, n - 1);
        proof {
            assert(t@ =~= s@.drop_last());
        }
        String::from_str(t)
    } else {
        String::from_str(s)
    }
}

/// Resolves exclude expressions into patterns. Every expression must be
/// absolute (else `InvalidInput`, before anything is compiled); a trailing
/// separator is dropped; each expression must then be well-formed (else
/// `BadPattern`). On success the patterns come in the order of `excludes`.
pub fn build_exclude_patterns(excludes: Vec<String>) -> (r: Result<
    Vec<ExcludePattern>,
    ScanError,
>)
    ensures
        (exists|i: int| 0 <= i < excludes.len() && !is_absolute(#[trigger] excludes[i]@)) <==> r
            == Err::<Vec<ExcludePattern>, ScanError>(ScanError::InvalidInput),
        ((forall|i: int| 0 <= i < excludes.len() ==> is_absolute(#[trigger] excludes[i]@))
            && exists|i: int|
            0 <= i < excludes.len() && !glob_valid(
                strip_trailing_separator(#[trigger] excludes[i]@),
            )) <==> r == Err::<Vec<ExcludePattern>, ScanError>(ScanError::BadPattern),
        r matches Ok(v) ==> {
            &&& v.len() == excludes.len()
            &&& forall|i: int|
                0 <= i < v.len() ==> #[trigger] v[i].text() == strip_trailing_separator(
                    excludes[i]@,
                )
        },
{
    let n = excludes.len();
    let mut i: usize = 0;
    while i < n
        invariant
            n == excludes.len(),
            i <= n,
            forall|j: int| 0 <= j < i ==> is_absolute(#[trigger] excludes[j]@),
        decreases n - i,
    {
        if !starts_with_separator(excludes[i].as_str()) {
            return Err(ScanError::InvalidInput);
        }
        i = i + 1;
    }
    let mut patterns: Vec<ExcludePattern> = Vec::new();
    let mut k: usize = 0;
    while k < n
        invariant
            n == excludes.len(),
            k <= n,
            forall|j: int| 0 <= j < n ==> is_absolute(#[trigger] excludes[j]@),
            patterns.len() == k,
            forall|j: int| 0 <= j < k ==> glob_valid(strip_trailing_separator(#[trigger] excludes[j]@)),
            forall|j: int|
                0 <= j < k ==> #[trigger] patterns[j].text() == strip_trailing_separator(
                    excludes[j]@,
                ),
        decreases n - k,
    {
        let text = strip_separator_suffix(excludes[k].as_str());
        match compile_glob(text.as_str()) {
            Ok(compiled) => {
                patterns.push(ExcludePattern { text, compiled });
            },
            Err(_) => {
                return Err(ScanError::BadPattern);
            },
        }
        k = k + 1;
    }
    Ok(patterns)
}

/// Whether any of `patterns` matches `path`: such a path is neither emitted
/// nor descended into.
pub fn is_path_excluded(patterns: &Vec<ExcludePattern>, path: &str) -> (r: bool)
    ensures
        r == excluded_by(patterns@, path@),
{
    let mut i: usize = 0;
    while i < patterns.len()
        invariant
            i <= patterns.len(),
            forall|j: int| 0 <= j < i ==> !glob_match(#[trigger] patterns@[j].text(), path@),
        decreases patterns.len() - i,
    {
        if pattern_matches(&patterns[i], path) {
            assert(glob_match(patterns@[i as int].text(), path@));
            return true;
        }
        i = i + 1;
    }
    false
}

/// What a path found by include expansion, or by walking a directory, is.
#[derive(Clone, Copy, Debug, PartialEq, Eq, Structural)]
pub enum EntryKind {
    File,
    Directory,
    Other,
}

/// What the scanner does with a path it found.
#[derive(Clone, Copy, Debug, PartialEq, Eq, Structural)]
pub enum ScanAction {
    /// Neither emit it nor descend into it.
    Skip,
    /// Emit it as a file to back up.
    Emit,
    /// Walk the directory, pruning excluded entries.
    Walk,
}

/// The scanner's decision on a path: an excluded path is skipped whatever it
/// is; otherwise a regular file is emitted, a directory walked, and anything
/// else skipped.
pub open spec fn scan_action(patterns: Seq<ExcludePattern>, path: Seq<char>, kind: EntryKind) -> ScanAction {
    if excluded_by(patterns, path) {
        ScanAction::Skip
    } else {
        match kind {
            EntryKind::File => ScanAction::Emit,
            EntryKind::Directory => ScanAction::Walk,
            EntryKind::Other => ScanAction::Skip,
        }
    }
}

/// A path that some exclude pattern matches is never emitted and never
/// walked, whatever it is: an excluded directory is pruned, so nothing beneath
/// it is reached through it.
pub proof fn lemma_excluded_path_pruned(
    patterns: Seq<ExcludePattern>,
    path: Seq<char>,
    kind: EntryKind,
    i: int,
)
    requires
        0 <= i < patterns.len(),
        glob_match(patterns[i].text(), path),
    ensures
        scan_action(patterns, path, kind) == ScanAction::Skip,
        scan_action(patterns, path, kind) != ScanAction::Emit,
        scan_action(patterns, path, kind) != ScanAction::Walk,
{
    assert(excluded_by(patterns, path));
}

/// The scanner's decision on a path found by include expansion or by a walk.
pub fn classify_path(patterns: &Vec<ExcludePattern>, path: &str, kind: EntryKind) -> (r:
    ScanAction)
    ensures
        r == scan_action(patterns@, path@, kind),
{
    if is_path_excluded(patterns, path) {
        return ScanAction::Skip;
    }
    match kind {
        EntryKind::File => ScanAction::Emit,
        EntryKind::Directory => ScanAction::Walk,
        EntryKind::Other => ScanAction::Skip,
    }
}

} // verus!
