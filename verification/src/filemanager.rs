//! The pure decisions of the file-management utilities: parsing a size
//! filter such as `"> 100M"`, extracting a path's extension, and judging a
//! file against the configured filters. Walking directories, reading file
//! sizes and moving data are the application's work; it hands the results
//! in as plain values.

use vstd::prelude::*;

use crate::config::Filters;

verus! {

/// The file-management operations' pure decision logic.
pub struct FileManager {}

/// A decimal digit.
pub open spec fn spec_is_digit(c: char) -> bool {
    '0' as int <= c as int <= '9' as int
}

/// Every character of the sequence is a decimal digit.
pub open spec fn spec_all_digits(s: Seq<char>) -> bool {
    forall|i: int| 0 <= i < s.len() ==> spec_is_digit(#[trigger] s[i])
}

/// The number the digit sequence denotes in decimal.
pub open spec fn spec_digits_value(s: Seq<char>) -> int
    decreases s.len(),
{
    if s.len() == 0 {
        0
    } else {
        spec_digits_value(s.drop_last()) * 10 + (s.last() as int - '0' as int)
    }
}

/// The character's code with a lower-case letter raised to upper case.
pub open spec fn spec_upper_code(c: char) -> int {
    if 'a' as int <= c as int <= 'z' as int {
        c as int - 32
    } else {
        c as int
    }
}

/// Bytes per unit letter: B, K, M, G or T.
pub open spec fn spec_unit_multiplier(code: int) -> Option<u64> {
    if code == 'B' as int {
        Some(1u64)
    } else if code == 'K' as int {
        Some(1024u64)
    } else if code == 'M' as int {
        Some(0x100000u64)
    } else if code == 'G' as int {
        Some(0x40000000u64)
    } else if code == 'T' as int {
        Some(0x10000000000u64)
    } else {
        None
    }
}

/// What a size limit string such as `"100M"` denotes: its digits scaled by
/// its unit letter, or nothing when the digits are missing or malformed,
/// their value does not fit, or the unit letter is unknown.
pub open spec fn spec_parse_filter_size(s: Seq<char>) -> Option<u64> {
    if s.len() == 0 {
        None
    } else {
        let prefix = s.drop_last();
        if prefix.len() == 0 || !spec_all_digits(prefix) || spec_digits_value(prefix)
            > u64::MAX {
            None
        } else {
            match spec_unit_multiplier(spec_upper_code(s.last())) {
                Some(m) => Some((spec_digits_value(prefix) * m) as u64),
                None => None,
            }
        }
    }
}

/// The scaled value must fit the machine word wherever the parse itself
/// succeeds; the one input this parser does not define for itself.
pub open spec fn spec_parse_size_fits(s: Seq<char>) -> bool {
    match (if s.len() >= 2 {
        spec_unit_multiplier(spec_upper_code(s.last()))
    } else {
        None
    }) {
        Some(m) => (spec_all_digits(s.drop_last()) && spec_digits_value(s.drop_last())
            <= u64::MAX) ==> spec_digits_value(s.drop_last()) * m <= u64::MAX,
        None => true,
    }
}

/// A digit sequence denotes a non-negative number.
proof fn lemma_digits_value_nonneg(s: Seq<char>)
    requires
        spec_all_digits(s),
    ensures
        spec_digits_value(s) >= 0,
    decreases s.len(),
{
    if s.len() > 0 {
        assert(spec_is_digit(s[s.len() - 1]));
        lemma_digits_value_nonneg(s.drop_last());
    }
}

/// A digit sequence denotes at least what any of its prefixes denotes.
proof fn lemma_digits_value_monotone(s: Seq<char>, j: int)
    requires
        spec_all_digits(s),
        0 <= j <= s.len(),
    ensures
        spec_digits_value(s.take(j)) <= spec_digits_value(s),
    decreases s.len() - j,
{
    if j == s.len() {
        assert(s.take(j) =~= s);
    } else {
        assert(s.drop_last().take(j) =~= s.take(j));
        assert(spec_all_digits(s.drop_last()));
        lemma_digits_value_monotone(s.drop_last(), j);
        assert(spec_is_digit(s[s.len() - 1]));
        lemma_digits_value_nonneg(s.drop_last());
    }
}

impl FileManager {
    /// Convert a size limit such as `"100M"` to bytes: a decimal number
    /// followed by one unit letter (B, K, M, G or T, either case).
    /// Anything else — no digits, a digit that is not one, a value too
    /// large, an unknown unit — is no size limit.
    pub fn parse_filter_size(size: &str) -> (r: Option<u64>)
        requires
            spec_parse_size_fits(size@),
        ensures
            r == spec_parse_filter_size(size@),
    {
        let n: usize = size.unicode_len();
        if n < 2 {
            return None;
        }
        let ghost prefix = size@.drop_last();
        let prefix_len: usize = n - 1;
        let mut value: u64 = 0;
        let mut i: usize = 0;
        while i < prefix_len
            invariant
                n == size@.len(),
                2 <= n,
                prefix_len == n - 1,
                i <= prefix_len,
                prefix == size@.drop_last(),
                spec_all_digits(prefix.take(i as int)),
                value == spec_digits_value(prefix.take(i as int)),
            decreases prefix_len - i,
        {
            let c: char = size.get_char(i);
            proof {
                assert(prefix[i as int] == size@[i as int]);
            }
            let code: u32 = c as u32;
            if code < 48 || code > 57 {
                proof {
                    assert(!spec_is_digit(prefix[i as int]));
                }
                return None;
            }
            let d: u64 = (code - 48) as u64;
            if value > (u64::MAX - d) / 10 {
                proof {
                    assert(prefix.take(i as int + 1).drop_last() =~= prefix.take(i as int));
                    assert(spec_digits_value(prefix.take(i as int + 1)) > u64::MAX);
                    if spec_all_digits(prefix) {
                        lemma_digits_value_monotone(prefix, i as int + 1);
                    }
                }
                return None;
            }
            proof {
                assert(value * 10 + d <= u64::MAX) by {
                    vstd::arithmetic::div_mod::lemma_fundamental_div_mod(
                        (u64::MAX - d) as int,
                        10,
                    );
                }
                assert(prefix.take(i as int + 1).drop_last() =~= prefix.take(i as int));
            }
            value = value * 10 + d;
            i = i + 1;
        }
        proof {
            assert(prefix.take(prefix_len as int) =~= prefix);
        }
        let unit: u32 = size.get_char(n - 1) as u32;
        let upper: u32 = if unit >= 97 && unit <= 122 {
            unit - 32
        } else {
            unit
        };
        let multiplier: u64 = if upper == 66 {
            1
        } else if upper == 75 {
            1024
        } else if upper == 77 {
            0x100000
        } else if upper == 71 {
            0x40000000
        } else if upper == 84 {
            0x10000000000
        } else {
            return None;
        };
        Some(value * multiplier)
    }
}


/// The final path component: what follows the last slash, or the whole
/// path when it has none.
pub open spec fn spec_file_name(s: Seq<char>) -> Seq<char>
    decreases s.len(),
{
    if s.len() == 0 {
        s
    } else if s.last() == '/' {
        Seq::empty()
    } else {
        spec_file_name(s.drop_last()).push(s.last())
    }
}

/// What follows the last dot of the sequence, if it has a dot at all.
pub open spec fn spec_after_last_dot(s: Seq<char>) -> Option<Seq<char>>
    decreases s.len(),
{
    if s.len() == 0 {
        None
    } else if s.last() == '.' {
        Some(Seq::<char>::empty())
    } else {
        match spec_after_last_dot(s.drop_last()) {
            Some(e) => Some(e.push(s.last())),
            None => None,
        }
    }
}

/// A path's extension: what follows the last dot of its file name,
/// provided something precedes that dot — a name that is all extension,
/// like a hidden file's, has none.
pub open spec fn spec_extension(s: Seq<char>) -> Option<Seq<char>> {
    let name = spec_file_name(s);
    match spec_after_last_dot(name) {
        Some(e) => if name.len() >= e.len() + 2 {
            Some(e)
        } else {
            None
        },
        None => None,
    }
}

/// Whether one of the configured formats equals the extension.
pub open spec fn spec_matches_any_format(formats: Seq<String>, ext: Seq<char>) -> bool {
    exists|i: int| 0 <= i < formats.len() && #[trigger] formats[i]@ == ext
}

/// The formats filter: a file passes when its path has an extension and
/// that extension is one of the configured formats.
pub open spec fn spec_filter_formats(path: Seq<char>, formats: Seq<String>) -> bool {
    match spec_extension(path) {
        Some(ext) => spec_matches_any_format(formats, ext),
        None => false,
    }
}

/// `i` is the one and only space of the sequence.
pub open spec fn spec_single_space_at(s: Seq<char>, i: int) -> bool {
    &&& 0 <= i < s.len()
    &&& s[i] == ' '
    &&& forall|j: int| 0 <= j < s.len() && j != i ==> s[j] != ' '
}

/// The size filter: the string must be a comparison operator and a size
/// limit separated by one space, and the file's size must satisfy the
/// comparison; anything malformed passes nothing.
pub open spec fn spec_filter_size(file_size: u64, s: Seq<char>) -> bool {
    if exists|i: int| spec_single_space_at(s, i) {
        let i = choose|i: int| spec_single_space_at(s, i);
        let op = s.take(i);
        match spec_parse_filter_size(s.skip(i + 1)) {
            Some(limit) => {
                if op == seq!['>'] {
                    file_size > limit
                } else if op == seq!['>', '='] {
                    file_size >= limit
                } else if op == seq!['<'] {
                    file_size < limit
                } else if op == seq!['<', '='] {
                    file_size <= limit
                } else if op == seq!['=', '='] {
                    file_size == limit
                } else {
                    false
                }
            },
            None => false,
        }
    } else {
        false
    }
}

/// The fit condition of [`spec_parse_size_fits`], lifted to the size
/// filter string's limit part.
pub open spec fn spec_size_filter_ok(s: Seq<char>) -> bool {
    (exists|i: int| spec_single_space_at(s, i)) ==> spec_parse_size_fits(
        s.skip((choose|i: int| spec_single_space_at(s, i)) + 1),
    )
}

/// Both filters together: each one that is configured must pass.
pub open spec fn spec_filter(path: Seq<char>, file_size: u64, filters: Filters) -> bool {
    &&& (match filters.formats {
        Some(f) => spec_filter_formats(path, f@),
        None => true,
    })
    &&& (match filters.size {
        Some(sz) => spec_filter_size(file_size, sz@),
        None => true,
    })
}

/// Where the file name starts — right after the last slash — is where the
/// recursive file-name reading lands.
proof fn lemma_file_name_at(s: Seq<char>, k: int)
    requires
        0 <= k <= s.len(),
        forall|j: int| k <= j < s.len() ==> s[j] != '/',
        k > 0 ==> s[k - 1] == '/',
    ensures
        spec_file_name(s) =~= s.skip(k),
    decreases s.len(),
{
    if k == s.len() {
        if s.len() > 0 {
            assert(s.last() == '/');
        }
    } else {
        assert(s.last() != '/');
        lemma_file_name_at(s.drop_last(), k);
    }
}

/// Where the text after the last dot sits — right after that dot — is
/// where the recursive reading lands; with no dot at all it finds none.
proof fn lemma_after_last_dot_at(s: Seq<char>, k: int)
    requires
        0 <= k <= s.len(),
        forall|j: int| k <= j < s.len() ==> s[j] != '.',
        k > 0 ==> s[k - 1] == '.',
    ensures
        k > 0 ==> (spec_after_last_dot(s) matches Some(e) && e =~= s.skip(k)),
        k == 0 ==> spec_after_last_dot(s) is None,
    decreases s.len(),
{
    if k == s.len() {
        if s.len() > 0 {
            assert(s.last() == '.');
        }
    } else {
        assert(s.last() != '.');
        lemma_after_last_dot_at(s.drop_last(), k);
    }
}

impl FileManager {
    /// Where the file name begins: the index right after the last slash,
    /// or zero when the path has none.
    fn name_start_of(path: &str) -> (k: usize)
        ensures
            k <= path@.len(),
            forall|j: int| k <= j < path@.len() ==> path@[j] != '/',
            k > 0 ==> path@[k - 1] == '/',
    {
        let n: usize = path.unicode_len();
        let mut k: usize = n;
        while k > 0
            invariant
                n == path@.len(),
                k <= n,
                forall|j: int| k <= j < n ==> path@[j] != '/',
            decreases k,
        {
            if path.get_char(k - 1) == '/' {
                return k;
            }
            k = k - 1;
        }
        0
    }

    /// The index right after the last dot at or past `from`, if that
    /// range has a dot at all.
    fn dot_end_in(path: &str, from: usize) -> (r: Option<usize>)
        requires
            from <= path@.len(),
        ensures
            match r {
                Some(k) => {
                    &&& from < k <= path@.len()
                    &&& path@[k - 1] == '.'
                    &&& forall|j: int| k <= j < path@.len() ==> path@[j] != '.'
                },
                None => forall|j: int| from <= j < path@.len() ==> path@[j] != '.',
            },
    {
        let n: usize = path.unicode_len();
        let mut k: usize = n;
        while k > from
            invariant
                n == path@.len(),
                from <= k <= n,
                forall|j: int| k <= j < n ==> path@[j] != '.',
            decreases k,
        {
            if path.get_char(k - 1) == '.' {
                return Some(k);
            }
            k = k - 1;
        }
        None
    }

    /// Whether the characters of `s` from `from` on equal `t`.
    fn tail_matches(s: &str, from: usize, t: &str) -> (r: bool)
        requires
            from <= s@.len(),
        ensures
            r == (s@.skip(from as int) == t@),
    {
        let n: usize = s.unicode_len();
        let m: usize = t.unicode_len();
        if n - from != m {
            return false;
        }
        for j in 0..m
            invariant
                n == s@.len(),
                m == t@.len(),
                from + m == n,
                forall|p: int| 0 <= p < j ==> s@[from + p] == t@[p],
        {
            if s.get_char(from + j) != t.get_char(j) {
                assert(s@.skip(from as int)[j as int] != t@[j as int]);
                return false;
            }
        }
        proof {
            assert(s@.skip(from as int) =~= t@);
        }
        true
    }

    /// Check formats filter: whether the path's extension is one of the
    /// configured formats. A path without an extension matches none.
    pub fn filter_formats(path: &str, formats: &Vec<String>) -> (r: bool)
        ensures
            r == spec_filter_formats(path@, formats@),
    {
        let name_start: usize = Self::name_start_of(path);
        proof {
            lemma_file_name_at(path@, name_start as int);
        }
        let ghost name = path@.skip(name_start as int);
        let dot_end: usize = match Self::dot_end_in(path, name_start) {
            Some(k) => {
                proof {
                    lemma_after_last_dot_at(name, k - name_start);
                    assert(name.skip(k - name_start) =~= path@.skip(k as int));
                }
                k
            },
            None => {
                proof {
                    lemma_after_last_dot_at(name, 0);
                }
                return false;
            },
        };
        if dot_end - name_start < 2 {
            return false;
        }
        let ghost ext = path@.skip(dot_end as int);
        for i in 0..formats.len()
            invariant
                spec_extension(path@) matches Some(e) && e == ext,
                dot_end <= path@.len(),
                ext == path@.skip(dot_end as int),
                forall|p: int| 0 <= p < i ==> #[trigger] formats@[p]@ != ext,
        {
            if Self::tail_matches(path, dot_end, formats[i].as_str()) {
                proof {
                    assert(formats@[i as int]@ == ext);
                }
                return true;
            }
        }
        false
    }

    /// Check size filter: the filter string is an operator and a limit
    /// separated by one space, and the file's size must satisfy it.
    pub fn filter_size(file_size: u64, size: &str) -> (r: bool)
        requires
            spec_size_filter_ok(size@),
        ensures
            r == spec_filter_size(file_size, size@),
    {
        let n: usize = size.unicode_len();
        // The one space separating operator and limit; none, or a second
        // one, is a malformed filter.
        let mut sp: usize = 0;
        let mut found: bool = false;
        for idx in 0..n
            invariant
                n == size@.len(),
                !found ==> forall|j: int| 0 <= j < idx ==> size@[j] != ' ',
                found ==> {
                    &&& sp < idx
                    &&& size@[sp as int] == ' '
                    &&& forall|j: int| 0 <= j < idx && j != sp ==> size@[j] != ' '
                },
        {
            if size.get_char(idx) == ' ' {
                if found {
                    proof {
                        assert forall|i: int| !spec_single_space_at(size@, i) by {
                            if i != sp {
                                assert(size@[sp as int] == ' ');
                            } else {
                                assert(size@[idx as int] == ' ');
                            }
                        }
                    }
                    return false;
                }
                sp = idx;
                found = true;
            }
        }
        if !found {
            proof {
                assert forall|i: int| !spec_single_space_at(size@, i) by {}
            }
            return false;
        }
        proof {
            assert(spec_single_space_at(size@, sp as int));
            let w = choose|i: int| spec_single_space_at(size@, i);
            assert(size@[sp as int] == ' ');
            assert(w == sp);
        }
        let ghost iw: int = choose|i: int| spec_single_space_at(size@, i);
        proof {
            assert(iw == sp);
        }
        let limit_part: &str = size.substring_char(sp + 1, n);
        proof {
            assert(limit_part@ =~= size@.skip(iw + 1));
        }
        let limit: u64 = match Self::parse_filter_size(limit_part) {
            Some(l) => l,
            None => {
                return false;
            },
        };
        let ghost op = size@.take(iw);
        proof {
            assert(op.len() == sp);
            assert(seq!['>'].len() == 1 && seq!['>'][0] == '>');
            assert(seq!['<'].len() == 1 && seq!['<'][0] == '<');
            assert(seq!['>', '='].len() == 2 && seq!['>', '='][0] == '>' && seq!['>', '='][1]
                == '=');
            assert(seq!['<', '='].len() == 2 && seq!['<', '='][0] == '<' && seq!['<', '='][1]
                == '=');
            assert(seq!['=', '='].len() == 2 && seq!['=', '='][0] == '=' && seq!['=', '='][1]
                == '=');
        }
        if sp == 1 {
            let c0: char = size.get_char(0);
            proof {
                assert(op[0] == c0);
                if c0 == '>' {
                    assert(op =~= seq!['>']);
                } else if c0 == '<' {
                    assert(op =~= seq!['<']);
                }
            }
            if c0 == '>' {
                file_size > limit
            } else if c0 == '<' {
                file_size < limit
            } else {
                false
            }
        } else if sp == 2 {
            let c0: char = size.get_char(0);
            let c1: char = size.get_char(1);
            proof {
                assert(op[0] == c0 && op[1] == c1);
                if c1 == '=' && c0 == '>' {
                    assert(op =~= seq!['>', '=']);
                } else if c1 == '=' && c0 == '<' {
                    assert(op =~= seq!['<', '=']);
                } else if c1 == '=' && c0 == '=' {
                    assert(op =~= seq!['=', '=']);
                }
            }
            if c1 != '=' {
                false
            } else if c0 == '>' {
                file_size >= limit
            } else if c0 == '<' {
                file_size <= limit
            } else if c0 == '=' {
                file_size == limit
            } else {
                false
            }
        } else {
            false
        }
    }

    /// Check all filters, if any of them failed, return false. The
    /// caller supplies the file's size, read from the file system.
    pub fn filter(path: &str, file_size: u64, filters: &Filters) -> (r: bool)
        requires
            filters.size matches Some(sz) ==> spec_size_filter_ok(sz@),
        ensures
            r == spec_filter(path@, file_size, *filters),
    {
        if let Some(formats) = &filters.formats {
            if !Self::filter_formats(path, formats) {
                return false;
            }
        }
        if let Some(size) = &filters.size {
            if !Self::filter_size(file_size, size.as_str()) {
                return false;
            }
        }
        true
    }
}

/// The work list behind a depth-first walk of a directory tree: paths
/// still to visit, the most recently found on top. The application pops a
/// path, lists it if it is a directory, and pushes what it finds.
pub struct IterablePath {
    tmp_paths: Vec<String>,
}

impl View for IterablePath {
    type V = Seq<String>;

    /// The paths still to visit, in stack order.
    closed spec fn view(&self) -> Seq<String> {
        self.tmp_paths@
    }
}

impl IterablePath {
    /// A walk that has yet to visit the root alone.
    pub fn new(root: String) -> (it: IterablePath)
        ensures
            it@ =~= seq![root],
    {
        IterablePath { tmp_paths: vec![root] }
    }

    /// The next path to visit, newest first; nothing when the walk is
    /// done.
    pub fn take_next(&mut self) -> (r: Option<String>)
        ensures
            old(self)@.len() == 0 ==> {
                &&& r is None
                &&& final(self)@ == old(self)@
            },
            old(self)@.len() > 0 ==> {
                &&& r == Some(old(self)@.last())
                &&& final(self)@ == old(self)@.drop_last()
            },
    {
        self.tmp_paths.pop()
    }

    /// Add a path found under a visited directory to the work list.
    pub fn push_path(&mut self, path: String)
        ensures
            final(self)@ == old(self)@.push(path),
    {
        self.tmp_paths.push(path);
    }
}


} // verus!
