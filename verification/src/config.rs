//! Configuration data model and validation: the pre-validated input the
//! orchestrator works from, the `"COLSxROWS"` grid string parser, and the
//! checks (grid shape, window count, unique names) that must hold before any
//! placement is computed.

use vstd::prelude::*;
use vstd::string::StrSliceExecFns;
use vstd::arithmetic::div_mod::{lemma_fundamental_div_mod, lemma_mod_division_less_than_divisor};

verus! {

/// Main configuration structure.
#[derive(Debug, Clone)]
pub struct Config {
    /// WSL distribution name (e.g., "Ubuntu-24.04").
    pub wsl_distribution: String,
    /// Target display index (0 = primary, 1 = secondary, etc.).
    pub target_display: u32,
    /// Layout configuration.
    pub layout: LayoutConfig,
    /// Window configurations.
    pub windows: Vec<WindowConfig>,
}

/// Layout configuration.
#[derive(Debug, Clone)]
pub struct LayoutConfig {
    /// Grid format (e.g., "2x4" for 2 columns, 4 rows).
    pub grid: String,
}

/// Individual window configuration.
#[derive(Debug, Clone)]
pub struct WindowConfig {
    /// Window name/identifier; the search key for later repositioning.
    pub name: String,
    /// Command to execute in the window.
    pub command: String,
    /// Working directory (supports ~ for home).
    pub working_dir: Option<String>,
}

/// The command a window runs when the configuration names none.
pub fn default_command() -> (r: String)
    ensures
        r@ == "bash"@,
{
    "bash".to_owned()
}

/// How a grid string fails to parse.
#[derive(Debug, Clone, Copy, PartialEq, Eq, Structural)]
pub enum GridParseError {
    /// Not of the form `<cols>x<rows>` with exactly one `x`.
    Malformed,
    /// The part before the `x` is not a positive decimal number that fits
    /// in `u32`.
    InvalidColumnCount,
    /// The part after the `x` is not a positive decimal number that fits
    /// in `u32`.
    InvalidRowCount,
}

/// A decimal digit.
pub open spec fn is_digit_char(c: char) -> bool {
    48 <= c as u32 <= 57
}

/// The numeric value of a decimal digit.
pub open spec fn digit_value(c: char) -> nat {
    (c as u32 - 48) as nat
}

/// Every character of `s` is a decimal digit.
pub open spec fn all_digits(s: Seq<char>) -> bool {
    forall|i: int| 0 <= i < s.len() ==> is_digit_char(#[trigger] s[i])
}

/// The number denoted by a sequence of decimal digits, most significant first.
pub open spec fn digits_value(s: Seq<char>) -> nat
    decreases s.len(),
{
    if s.len() == 0 {
        0
    } else {
        digits_value(s.drop_last()) * 10 + digit_value(s.last())
    }
}

/// `s` is a non-empty digit string denoting a number that fits in `u32`.
pub open spec fn parses_as_u32(s: Seq<char>) -> bool {
    &&& s.len() >= 1
    &&& all_digits(s)
    &&& digits_value(s) <= u32::MAX
}

/// `s` denotes a positive number: a grid has at least one column and one
/// row, so a zero side is rejected.
pub open spec fn parses_as_positive_u32(s: Seq<char>) -> bool {
    parses_as_u32(s) && digits_value(s) >= 1
}

/// No `'x'` occurs in `s` at positions `from..to`.
pub open spec fn no_x(s: Seq<char>, from: int, to: int) -> bool {
    forall|j: int| from <= j < to ==> s[j] != 'x'
}

/// `k` is the position of the one and only `'x'` in `s`.
pub open spec fn grid_split_at(s: Seq<char>, k: int) -> bool {
    &&& 0 <= k < s.len()
    &&& s[k] == 'x'
    &&& no_x(s, 0, k)
    &&& no_x(s, k + 1, s.len() as int)
}

/// `s` contains exactly one `'x'`.
pub open spec fn grid_shape_ok(s: Seq<char>) -> bool {
    exists|k: int| grid_split_at(s, k)
}

/// The position of the unique `'x'` of a well-shaped grid string.
pub open spec fn grid_x_index(s: Seq<char>) -> int {
    choose|k: int| grid_split_at(s, k)
}

/// The digits before the `'x'`.
pub open spec fn grid_cols_seq(s: Seq<char>) -> Seq<char> {
    s.subrange(0, grid_x_index(s))
}

/// The digits after the `'x'`.
pub open spec fn grid_rows_seq(s: Seq<char>) -> Seq<char> {
    s.subrange(grid_x_index(s) + 1, s.len() as int)
}

/// The grid string has the form `<cols>x<rows>`, both sides non-empty digit
/// strings denoting positive numbers that fit in `u32`.
pub open spec fn grid_spec_ok(s: Seq<char>) -> bool {
    &&& grid_shape_ok(s)
    &&& parses_as_positive_u32(grid_cols_seq(s))
    &&& parses_as_positive_u32(grid_rows_seq(s))
}

/// The column count a well-formed grid string denotes.
pub open spec fn grid_cols(s: Seq<char>) -> nat {
    digits_value(grid_cols_seq(s))
}

/// The row count a well-formed grid string denotes.
pub open spec fn grid_rows(s: Seq<char>) -> nat {
    digits_value(grid_rows_seq(s))
}

/// The error a failing grid string is rejected with.
pub open spec fn grid_parse_error(s: Seq<char>) -> GridParseError {
    if !grid_shape_ok(s) {
        GridParseError::Malformed
    } else if !parses_as_positive_u32(grid_cols_seq(s)) {
        GridParseError::InvalidColumnCount
    } else {
        GridParseError::InvalidRowCount
    }
}

/// A grid string holds at most one `'x'`, so its split position is unique.
pub proof fn lemma_grid_split_unique(s: Seq<char>, k1: int, k2: int)
    requires
        grid_split_at(s, k1),
        grid_split_at(s, k2),
    ensures
        k1 == k2,
{
    if k1 < k2 {
        assert(s[k2] != 'x');
    } else if k2 < k1 {
        assert(s[k1] != 'x');
    }
}

/// The value of a digit string is at least the value of any of its prefixes:
/// appending digits never decreases the denoted number.
proof fn lemma_digits_value_prefix_le(t: Seq<char>, k: int)
    requires
        0 <= k <= t.len(),
    ensures
        digits_value(t.subrange(0, k)) <= digits_value(t),
    decreases t.len() - k,
{
    if k == t.len() {
        assert(t.subrange(0, k) =~= t);
    } else {
        assert(t.subrange(0, k + 1).drop_last() =~= t.subrange(0, k));
        assert(digits_value(t.subrange(0, k + 1))
            == digits_value(t.subrange(0, k)) * 10 + digit_value(t.subrange(0, k + 1).last()));
        lemma_digits_value_prefix_le(t, k + 1);
    }
}

/// Parse the digit run `s[from..to]` as a `u32`.
fn parse_u32_range(s: &str, from: usize, to: usize) -> (r: Result<u32, ()>)
    requires
        from <= to <= s@.len(),
    ensures
        r matches Ok(v) ==> parses_as_u32(s@.subrange(from as int, to as int))
            && v == digits_value(s@.subrange(from as int, to as int)),
        r is Err ==> !parses_as_u32(s@.subrange(from as int, to as int)),
{
    let ghost t = s@.subrange(from as int, to as int);
    if from == to {
        return Err(());
    }
    let mut i: usize = from;
    let mut acc: u32 = 0;
    while i < to
        invariant
            from <= i <= to <= s@.len(),
            t == s@.subrange(from as int, to as int),
            all_digits(t.subrange(0, i - from)),
            acc == digits_value(t.subrange(0, i - from)),
        decreases to - i,
    {
        let ch = s.get_char(i);
        let cu = ch as u32;
        proof {
            assert(t[i - from] == s@[i as int]);
        }
        if cu < 48 || cu > 57 {
            proof {
                assert(!is_digit_char(t[i - from]));
            }
            return Err(());
        }
        let d = cu - 48;
        if acc > (u32::MAX - d) / 10 {
            proof {
                lemma_fundamental_div_mod(u32::MAX - d, 10);
                lemma_mod_division_less_than_divisor(u32::MAX - d, 10);
                assert(acc * 10 + d > u32::MAX);
                assert(t.subrange(0, i - from + 1).drop_last() =~= t.subrange(0, i - from));
                assert(digits_value(t.subrange(0, i - from + 1)) > u32::MAX);
                lemma_digits_value_prefix_le(t, i - from + 1);
            }
            return Err(());
        }
        proof {
            lemma_fundamental_div_mod(u32::MAX - d, 10);
            lemma_mod_division_less_than_divisor(u32::MAX - d, 10);
            assert(acc * 10 + d <= u32::MAX);
            assert(t.subrange(0, i - from + 1).drop_last() =~= t.subrange(0, i - from));
        }
        acc = acc * 10 + d;
        i += 1;
    }
    proof {
        assert(t.subrange(0, (to - from) as int) =~= t);
    }
    Ok(acc)
}

impl LayoutConfig {
    /// Parse the grid string into `(columns, rows)`. Both counts must be
    /// positive: a grid with zero columns or zero rows is invalid.
    pub fn parse_grid(&self) -> (r: Result<(u32, u32), GridParseError>)
        ensures
            r is Ok <==> grid_spec_ok(self.grid@),
            r matches Ok(p) ==> p.0 == grid_cols(self.grid@) && p.1 == grid_rows(self.grid@),
            r matches Err(e) ==> e == grid_parse_error(self.grid@),
    {
        let s = self.grid.as_str();
        let n = s.unicode_len();

        // Find the first 'x' and detect whether a second one exists.
        let mut xpos: usize = n;
        let mut second: bool = false;
        let mut i: usize = 0;
        while i < n
            invariant
                i <= n,
                n == s@.len(),
                xpos <= n,
                xpos == n ==> no_x(s@, 0, i as int) && !second,
                xpos < n ==> s@[xpos as int] == 'x' && no_x(s@, 0, xpos as int) && xpos < i,
                xpos < n ==> (second <==> !no_x(s@, xpos + 1, i as int)),
            decreases n - i,
        {
            let ch = s.get_char(i);
            if ch == 'x' {
                if xpos == n {
                    xpos = i;
                } else {
                    second = true;
                }
            }
            i += 1;
        }

        if xpos == n {
            proof {
                assert forall|k: int| !grid_split_at(s@, k) by {
                    if 0 <= k < s@.len() {
                        assert(s@[k] != 'x');
                    }
                }
            }
            return Err(GridParseError::Malformed);
        }
        if second {
            proof {
                let j = choose|j: int| xpos + 1 <= j < n && s@[j] == 'x';
                assert forall|k: int| !grid_split_at(s@, k) by {
                    if grid_split_at(s@, k) {
                        if k < j {
                            assert(s@[j] != 'x');
                        } else {
                            assert(s@[xpos as int] != 'x');
                        }
                    }
                }
            }
            return Err(GridParseError::Malformed);
        }

        proof {
            assert(grid_split_at(s@, xpos as int));
            lemma_grid_split_unique(s@, xpos as int, grid_x_index(s@));
        }

        let cols = match parse_u32_range(s, 0, xpos) {
            Ok(v) => v,
            Err(()) => {
                return Err(GridParseError::InvalidColumnCount);
            },
        };
        if cols == 0 {
            return Err(GridParseError::InvalidColumnCount);
        }
        let rows = match parse_u32_range(s, xpos + 1, n) {
            Ok(v) => v,
            Err(()) => {
                return Err(GridParseError::InvalidRowCount);
            },
        };
        if rows == 0 {
            return Err(GridParseError::InvalidRowCount);
        }
        Ok((cols, rows))
    }
}

/// How a configuration fails validation.
#[derive(Debug, Clone, PartialEq, Eq)]
pub enum ConfigError {
    /// The grid string does not parse.
    InvalidGrid(GridParseError),
    /// No window is configured.
    NoWindows,
    /// More windows are configured than the grid has cells.
    TooManyWindows,
    /// Two windows share this name.
    DuplicateName(String),
}

/// All window names are pairwise distinct.
pub open spec fn names_unique(ws: Seq<WindowConfig>) -> bool {
    forall|i: int, j: int| 0 <= i < j < ws.len() ==> ws[i].name@ != ws[j].name@
}

/// The window at `j` repeats the name of an earlier window.
pub open spec fn dup_at(ws: Seq<WindowConfig>, j: int) -> bool {
    exists|i: int| 0 <= i < j && ws[i].name@ == ws[j].name@
}

/// The first window, in configured order, that repeats an earlier name:
/// the one a duplicate-name rejection reports.
pub open spec fn first_dup_index(ws: Seq<WindowConfig>) -> int {
    choose|j: int|
        0 <= j < ws.len() && dup_at(ws, j) && (forall|j2: int| 0 <= j2 < j ==> !dup_at(ws, j2))
}

/// Only one index can be the first duplicate.
proof fn lemma_first_dup_unique(ws: Seq<WindowConfig>, j1: int, j2: int)
    requires
        0 <= j1 < ws.len(),
        dup_at(ws, j1),
        forall|k: int| 0 <= k < j1 ==> !dup_at(ws, k),
        0 <= j2 < ws.len(),
        dup_at(ws, j2),
        forall|k: int| 0 <= k < j2 ==> !dup_at(ws, k),
    ensures
        j1 == j2,
{
    if j1 < j2 {
        assert(!dup_at(ws, j1));
    } else if j2 < j1 {
        assert(!dup_at(ws, j2));
    }
}

/// A configuration is valid: the grid parses, at least one window is
/// configured, the windows fit in the grid, and no name repeats.
pub open spec fn config_valid(c: Config) -> bool {
    &&& grid_spec_ok(c.layout.grid@)
    &&& c.windows@.len() >= 1
    &&& c.windows@.len() <= grid_cols(c.layout.grid@) * grid_rows(c.layout.grid@)
    &&& names_unique(c.windows@)
}

/// The error an invalid configuration is rejected with.
pub open spec fn config_error(c: Config) -> ConfigError {
    if !grid_spec_ok(c.layout.grid@) {
        ConfigError::InvalidGrid(grid_parse_error(c.layout.grid@))
    } else if c.windows@.len() == 0 {
        ConfigError::NoWindows
    } else if c.windows@.len() > grid_cols(c.layout.grid@) * grid_rows(c.layout.grid@) {
        ConfigError::TooManyWindows
    } else {
        ConfigError::DuplicateName(c.windows@[first_dup_index(c.windows@)].name)
    }
}

/// Validate a configuration before any window-level work begins.
pub fn validate(config: &Config) -> (r: Result<(), ConfigError>)
    ensures
        r is Ok <==> config_valid(*config),
        r matches Err(e) ==> e == config_error(*config),
{
    let (cols, rows) = match config.layout.parse_grid() {
        Ok(p) => p,
        Err(e) => {
            return Err(ConfigError::InvalidGrid(e));
        },
    };

    if config.windows.len() == 0 {
        return Err(ConfigError::NoWindows);
    }

    proof {
        assert((cols as int) * (rows as int) <= u64::MAX) by (nonlinear_arith)
            requires
                0 <= cols as int <= u32::MAX,
                0 <= rows as int <= u32::MAX,
        ;
    }
    let max_windows: u64 = (cols as u64) * (rows as u64);
    if (config.windows.len() as u64) > max_windows {
        return Err(ConfigError::TooManyWindows);
    }

    let n = config.windows.len();
    let mut i: usize = 0;
    while i < n
        invariant
            i <= n,
            n == config.windows@.len(),
            names_unique(config.windows@.subrange(0, i as int)),
            grid_spec_ok(config.layout.grid@),
            config.windows@.len() >= 1,
            config.windows@.len() <= grid_cols(config.layout.grid@) * grid_rows(config.layout.grid@),
        decreases n - i,
    {
        let mut j: usize = 0;
        while j < i
            invariant
                j <= i < n,
                n == config.windows@.len(),
                names_unique(config.windows@.subrange(0, i as int)),
                forall|jj: int| 0 <= jj < j ==> config.windows@[jj].name@ != config.windows@[i as int].name@,
                grid_spec_ok(config.layout.grid@),
                config.windows@.len() >= 1,
                config.windows@.len() <= grid_cols(config.layout.grid@) * grid_rows(config.layout.grid@),
            decreases i - j,
        {
            if config.windows[j].name == config.windows[i].name {
                proof {
                    let ws = config.windows@;
                    assert(ws[j as int].name@ == ws[i as int].name@);
                    assert(dup_at(ws, i as int));
                    // The scanned prefix is duplicate-free, so window i is
                    // the first duplicate.
                    assert forall|j2: int| 0 <= j2 < i as int implies !dup_at(ws, j2) by {
                        if dup_at(ws, j2) {
                            let i0 = choose|i0: int| 0 <= i0 < j2 && ws[i0].name@ == ws[j2].name@;
                            assert(ws.subrange(0, i as int)[i0].name@
                                != ws.subrange(0, i as int)[j2].name@);
                        }
                    }
                    let jj = first_dup_index(ws);
                    assert(0 <= jj < ws.len() && dup_at(ws, jj)
                        && (forall|j2: int| 0 <= j2 < jj ==> !dup_at(ws, j2)));
                    lemma_first_dup_unique(ws, i as int, jj);
                }
                return Err(ConfigError::DuplicateName(config.windows[i].name.clone()));
            }
            j += 1;
        }
        proof {
            let ws = config.windows@;
            let wsp = ws.subrange(0, i + 1);
            assert forall|i1: int, j1: int| #![trigger wsp[i1], wsp[j1]]
                0 <= i1 < j1 < wsp.len() implies wsp[i1].name@ != wsp[j1].name@ by {
                if j1 < i as int {
                    assert(ws.subrange(0, i as int)[i1].name@ != ws.subrange(0, i as int)[j1].name@);
                } else {
                    assert(ws[i1].name@ != ws[i as int].name@);
                }
            }
            assert(names_unique(wsp));
        }
        i += 1;
    }
    proof {
        assert(config.windows@.subrange(0, n as int) =~= config.windows@);
    }
    Ok(())
}

} // verus!
