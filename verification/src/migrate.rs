//! Schema migration: reading the persisted schema version, deciding which
//! upgrade steps are owed, and laying out the file operations of each step.

use vstd::prelude::*;
use vstd::string::*;

verus! {

/// The schema version that this build brings the persisted state to.
pub const CURRENT_MIGRATION_VERSION: i16 = 19;

/// Whether `c` is one of the ten decimal digits.
pub open spec fn is_digit(c: char) -> bool {
    '0' <= c <= '9'
}

/// The number that the decimal digits `s` write.
pub open spec fn decimal(s: Seq<char>) -> int
    decreases s.len(),
{
    if s.len() == 0 {
        0
    } else {
        10 * decimal(s.drop_last()) + (s.last() as int - '0' as int)
    }
}

/// Whether `s` holds decimal digits only.
pub open spec fn all_digits(s: Seq<char>) -> bool {
    forall|i: int| 0 <= i < s.len() ==> is_digit(#[trigger] s[i])
}

/// The digits of `s`: all of it but a leading sign.
pub open spec fn unsigned_part(s: Seq<char>) -> Seq<char> {
    if s.len() > 0 && (s[0] == '-' || s[0] == '+') {
        s.drop_first()
    } else {
        s
    }
}

/// The 16-bit signed integer that `s` writes in decimal: an optional sign,
/// then one digit or more and nothing else, the number within the range of
/// the type.
pub open spec fn parse_version(s: Seq<char>) -> Option<int> {
    let digits = unsigned_part(s);
    let value = if s.len() > 0 && s[0] == '-' {
        -decimal(digits)
    } else {
        decimal(digits)
    };
    if digits.len() > 0 && all_digits(digits) && i16::MIN <= value <= i16::MAX {
        Some(value)
    } else {
        None
    }
}

/// The schema version that a marker stands for: the number it writes, and 0
/// where the marker is absent or writes none.
pub open spec fn schema_version_of(marker: Option<Seq<char>>) -> int {
    match marker {
        Some(text) => match parse_version(text) {
            Some(version) => version,
            None => 0,
        },
        None => 0,
    }
}

/// A number never falls below the number that its leading digits write.
proof fn lemma_decimal_prefix(s: Seq<char>, k: int)
    requires
        all_digits(s),
        0 <= k <= s.len(),
    ensures
        0 <= decimal(s.take(k)) <= decimal(s),
    decreases s.len() - k,
{
    if k == s.len() {
        assert(s.take(k) =~= s);
        lemma_decimal_nonnegative(s);
    } else {
        lemma_decimal_prefix(s, k + 1);
        let longer = s.take(k + 1);
        assert(longer.drop_last() =~= s.take(k));
        assert(is_digit(s[k]));
        assert(longer.last() == s[k]);
        assert(all_digits(s.take(k))) by {
            assert forall|i: int| 0 <= i < s.take(k).len() implies is_digit(
                #[trigger] s.take(k)[i],
            ) by {
                assert(s.take(k)[i] == s[i]);
            }
        }
        lemma_decimal_nonnegative(s.take(k));
    }
}

/// Digits write no negative number.
proof fn lemma_decimal_nonnegative(s: Seq<char>)
    requires
        all_digits(s),
    ensures
        0 <= decimal(s),
    decreases s.len(),
{
    if s.len() > 0 {
        assert(is_digit(s[s.len() - 1]));
        assert forall|i: int| 0 <= i < s.drop_last().len() implies is_digit(
            #[trigger] s.drop_last()[i],
        ) by {
            assert(s.drop_last()[i] == s[i]);
        }
        lemma_decimal_nonnegative(s.drop_last());
    }
}

/// Text with a character outside ASCII writes no number.
proof fn lemma_beyond_ascii(s: Seq<char>)
    requires
        !vstd::utf8::is_ascii_chars(s),
    ensures
        parse_version(s) is None,
{
    let i = choose|i: int| 0 <= i < s.len() && !('\0' <= #[trigger] s[i] <= '\u{7f}');
    let digits = unsigned_part(s);
    if digits.len() == s.len() {
        assert(!is_digit(digits[i]));
    } else {
        assert(s[0] == '-' || s[0] == '+');
        assert(digits[i - 1] == s[i]);
        assert(!is_digit(digits[i - 1]));
    }
}

/// The byte of the minus sign.
const MINUS: u8 = 45;

/// The byte of the plus sign.
const PLUS: u8 = 43;

/// The byte of the digit 0.
const DIGIT_ZERO: u8 = 48;

/// The byte of the digit 9.
const DIGIT_NINE: u8 = 57;

/// The magnitude of the smallest version; that of the largest is one less.
const MAGNITUDE_LIMIT: i32 = 32768;

/// The schema version that the text of the marker file stands for.
fn parse_marker(text: &str) -> (version: i16)
    ensures
        version == schema_version_of(Some(text@)),
{
    broadcast use is_ascii_spec_bytes;

    if !text.is_ascii() {
        proof {
            lemma_beyond_ascii(text@);
        }
        return 0;
    }
    let bytes = text.as_bytes();
    let n = bytes.len();
    assert(n == text@.len() && forall|j: int| 0 <= j < n ==> bytes@[j] == text@[j] as u8) by {
        assert(is_ascii(text));
        assert(text.spec_bytes().len() == text@.len());
    }
    if n == 0 {
        return 0;
    }
    let first = bytes[0];
    assert(first == MINUS <==> text@[0] == '-');
    assert(first == PLUS <==> text@[0] == '+');
    let negative = first == MINUS;
    let start: usize = if first == MINUS || first == PLUS {
        1
    } else {
        0
    };
    let ghost digits = unsigned_part(text@);
    assert(digits =~= text@.subrange(start as int, n as int));
    if start == n {
        return 0;
    }
    let mut value: i32 = 0;
    let mut i: usize = start;
    assert(digits.take(0) =~= Seq::<char>::empty());
    while i < n
        invariant
            start <= i <= n,
            n == text@.len(),
            n == bytes@.len(),
            vstd::utf8::is_ascii_chars(text@),
            forall|j: int| 0 <= j < n ==> bytes@[j] == text@[j] as u8,
            digits == text@.subrange(start as int, n as int),
            digits == unsigned_part(text@),
            all_digits(digits.take(i - start)),
            value == decimal(digits.take(i - start)),
            0 <= value <= MAGNITUDE_LIMIT,
        decreases n - i,
    {
        let b = bytes[i];
        let ghost k = i - start;
        assert(digits[k] == text@[i as int]);
        if b < DIGIT_ZERO || b > DIGIT_NINE {
            assert(!is_digit(digits[k]));
            return 0;
        }
        assert(is_digit(digits[k]));
        let digit: i32 = (b - DIGIT_ZERO) as i32;
        proof {
            let longer = digits.take(k + 1);
            assert(longer.drop_last() =~= digits.take(k));
            assert(longer.last() == digits[k]);
            assert forall|j: int| 0 <= j < longer.len() implies is_digit(#[trigger] longer[j]) by {
                if j < k {
                    assert(digits.take(k)[j] == longer[j]);
                }
            }
        }
        value = value * 10 + digit;
        if value > MAGNITUDE_LIMIT {
            proof {
                if all_digits(digits) {
                    lemma_decimal_prefix(digits, k + 1);
                }
            }
            return 0;
        }
        i += 1;
    }
    assert(digits.take(n - start) =~= digits);
    if negative {
        (-value) as i16
    } else if value < MAGNITUDE_LIMIT {
        value as i16
    } else {
        0
    }
}

/// The schema version to start from, given the text of the marker file, or
/// `None` where the file could not be read. A marker that is absent or
/// writes no 16-bit integer counts as version 0.
pub fn get_schema_version(marker: Option<&str>) -> (version: i16)
    ensures
        version == schema_version_of(
            match marker {
                Some(text) => Some(text@),
                None => None,
            },
        ),
{
    match marker {
        Some(text) => parse_marker(text),
        None => 0,
    }
}

/// The character that writes the digit `d`.
pub open spec fn digit_char(d: int) -> char {
    if d == 0 {
        '0'
    } else if d == 1 {
        '1'
    } else if d == 2 {
        '2'
    } else if d == 3 {
        '3'
    } else if d == 4 {
        '4'
    } else if d == 5 {
        '5'
    } else if d == 6 {
        '6'
    } else if d == 7 {
        '7'
    } else if d == 8 {
        '8'
    } else {
        '9'
    }
}

/// The decimal digits of `n`, without leading zeros.
pub open spec fn decimal_text(n: nat) -> Seq<char>
    decreases n,
{
    if n < 10 {
        seq![digit_char(n as int)]
    } else {
        decimal_text(n / 10).push(digit_char((n % 10) as int))
    }
}

/// The text that is written to the marker file for `version`: its decimal
/// digits, after a minus sign where it is negative.
pub open spec fn version_text(version: int) -> Seq<char> {
    if version < 0 {
        seq!['-'] + decimal_text((-version) as nat)
    } else {
        decimal_text(version as nat)
    }
}

/// The decimal digits of a number are digits, and write that number.
proof fn lemma_decimal_text(n: nat)
    ensures
        decimal_text(n).len() > 0,
        all_digits(decimal_text(n)),
        decimal(decimal_text(n)) == n,
    decreases n,
{
    if n < 10 {
        let text = decimal_text(n);
        assert(text.drop_last() =~= Seq::<char>::empty());
        assert(decimal(text.drop_last()) == 0);
    } else {
        lemma_decimal_text(n / 10);
        let text = decimal_text(n);
        assert(text.drop_last() =~= decimal_text(n / 10));
        assert forall|i: int| 0 <= i < text.len() implies is_digit(#[trigger] text[i]) by {
            if i < text.len() - 1 {
                assert(text[i] == decimal_text(n / 10)[i]);
            }
        }
    }
}

/// What is written to the marker file is read back as the version that
/// was written.
pub proof fn lemma_version_text_reads_back(version: int)
    requires
        i16::MIN <= version <= i16::MAX,
    ensures
        schema_version_of(Some(version_text(version))) == version,
{
    let text = version_text(version);
    if version < 0 {
        let digits = decimal_text((-version) as nat);
        lemma_decimal_text((-version) as nat);
        assert(text[0] == '-');
        assert(unsigned_part(text) =~= digits);
    } else {
        lemma_decimal_text(version as nat);
        assert(is_digit(text[0]));
        assert(unsigned_part(text) == text);
    }
}

/// The text that writes the digit `d`.
fn digit_text(d: u8) -> (text: &'static str)
    requires
        d < 10,
    ensures
        text@ == seq![digit_char(d as int)],
{
    proof {
        reveal_strlit("0");
        reveal_strlit("1");
        reveal_strlit("2");
        reveal_strlit("3");
        reveal_strlit("4");
        reveal_strlit("5");
        reveal_strlit("6");
        reveal_strlit("7");
        reveal_strlit("8");
        reveal_strlit("9");
    }
    let text = match d {
        0 => "0",
        1 => "1",
        2 => "2",
        3 => "3",
        4 => "4",
        5 => "5",
        6 => "6",
        7 => "7",
        8 => "8",
        _ => "9",
    };
    assert(text@ =~= seq![digit_char(d as int)]);
    text
}

/// The decimal digits of `n`.
fn decimal_string(n: u16) -> (text: String)
    ensures
        text@ == decimal_text(n as nat),
    decreases n,
{
    if n < 10 {
        digit_text(n as u8).to_owned()
    } else {
        let mut text = decimal_string(n / 10);
        text.append(digit_text((n % 10) as u8));
        text
    }
}

/// The text to write to the marker file for `version`. Writing it is left
/// to the caller.
pub fn save_schema_version(version: i16) -> (text: String)
    ensures
        text@ == version_text(version as int),
{
    if version < 0 {
        let magnitude: u16 = (-(version as i32)) as u16;
        proof {
            reveal_strlit("-");
        }
        let sign = "-".to_owned();
        assert(sign@ =~= seq!['-']);
        sign.concat(decimal_string(magnitude).as_str())
    } else {
        decimal_string(version as u16)
    }
}

/// The two kinds of host that launcher shims are laid out for.
#[derive(Debug, Clone, Copy, PartialEq, Eq, Structural)]
pub enum Platform {
    /// A host with symbolic links: one dispatcher binary, and a link to it
    /// under each intercepted name.
    Unix,
    /// A host without them: a copy of the dispatcher binary under each
    /// intercepted name, and a command script beside most of them.
    Windows,
}

/// One upgrade step.
#[derive(Debug, Clone, Copy, PartialEq, Eq, Structural)]
pub enum MigrationStep {
    /// Fresh install of the launcher shims.
    FromBasic,
    /// Refresh of every dispatcher binary in place; records the current
    /// schema version when it has succeeded.
    ToLast,
}

/// The steps owed when the persisted schema version is `version`, in the
/// order in which they run.
pub open spec fn steps_from(version: int) -> Seq<MigrationStep> {
    if version >= CURRENT_MIGRATION_VERSION {
        seq![]
    } else if version == 0 {
        seq![MigrationStep::FromBasic, MigrationStep::ToLast]
    } else {
        seq![MigrationStep::ToLast]
    }
}

/// Decides which steps to run, given the schema version read off the marker.
pub fn update_schema(schema_version: i16) -> (steps: Vec<MigrationStep>)
    ensures
        steps@ == steps_from(schema_version as int),
{
    let mut steps: Vec<MigrationStep> = Vec::new();
    if schema_version < CURRENT_MIGRATION_VERSION {
        if schema_version == 0 {
            steps.push(MigrationStep::FromBasic);
        }
        steps.push(MigrationStep::ToLast);
    }
    assert(steps@ =~= steps_from(schema_version as int));
    steps
}

/// One operation on the persisted state. File names are relative: a source
/// to the directory of the bundled resources, everything else to the
/// directory of the launcher shims.
#[derive(Debug, PartialEq, Eq)]
pub enum FileOp {
    /// Create the directory of the launcher shims unless it exists.
    CreateBinDir,
    /// Copy the resource `source` to `target`, replacing what is there.
    Copy { source: String, target: String },
    /// Make `name` a symbolic link to `target`, replacing what is there.
    Link { target: String, name: String },
    /// Write `version` to the marker file.
    SaveVersion { version: i16 },
}

/// The mathematical content of a [`FileOp`].
pub ghost enum FileOpView {
    CreateBinDir,
    Copy { source: Seq<char>, target: Seq<char> },
    Link { target: Seq<char>, name: Seq<char> },
    SaveVersion { version: int },
}

impl DeepView for FileOp {
    type V = FileOpView;

    open spec fn deep_view(&self) -> FileOpView {
        match *self {
            FileOp::CreateBinDir => FileOpView::CreateBinDir,
            FileOp::Copy { source, target } => FileOpView::Copy {
                source: source@,
                target: target@,
            },
            FileOp::Link { target, name } => FileOpView::Link { target: target@, name: name@ },
            FileOp::SaveVersion { version } => FileOpView::SaveVersion { version: version as int },
        }
    }
}

impl View for FileOp {
    type V = FileOpView;

    open spec fn view(&self) -> FileOpView {
        self.deep_view()
    }
}

/// File name of the dispatcher binary, among the resources and among the
/// launcher shims alike.
pub open spec fn dispatcher_name(platform: Platform) -> Seq<char> {
    match platform {
        Platform::Unix => "nvmd"@,
        Platform::Windows => "nvmd.exe"@,
    }
}

/// The names under which the dispatcher intercepts, in the order in which
/// their shims are laid out.
pub open spec fn default_names() -> Seq<Seq<char>> {
    seq!["node"@, "npm"@, "npx"@, "corepack"@]
}

/// The operations that lay out the shim of one intercepted name.
pub open spec fn shim_ops(platform: Platform, name: Seq<char>) -> Seq<FileOpView> {
    match platform {
        Platform::Unix => seq![FileOpView::Link { target: "nvmd"@, name }],
        Platform::Windows => {
            let binary = FileOpView::Copy { source: "nvmd.exe"@, target: name + ".exe"@ };
            if name == "node"@ {
                seq![binary]
            } else {
                seq![binary, FileOpView::Copy { source: "temp.cmd"@, target: name + ".cmd"@ }]
            }
        },
    }
}

/// The operations that lay out the shims of `names`, one name after the
/// other.
pub open spec fn shims_ops(platform: Platform, names: Seq<Seq<char>>) -> Seq<FileOpView>
    decreases names.len(),
{
    if names.len() == 0 {
        seq![]
    } else {
        shims_ops(platform, names.drop_last()) + shim_ops(platform, names.last())
    }
}

/// The first operations of either step: the directory, then the dispatcher
/// binary under its own name.
pub open spec fn prepare_ops(platform: Platform) -> Seq<FileOpView> {
    seq![
        FileOpView::CreateBinDir,
        FileOpView::Copy { source: dispatcher_name(platform), target: dispatcher_name(platform) },
    ]
}

/// The operations of the fresh install: the directory, the dispatcher binary
/// under its own name, then the shim of each intercepted name.
pub open spec fn bootstrap_ops(platform: Platform) -> Seq<FileOpView> {
    prepare_ops(platform) + shims_ops(platform, default_names())
}

/// Whether the file name `name` has the extension `exe`: it ends in `.exe`,
/// and something stands before that.
pub open spec fn has_exe_extension(name: Seq<char>) -> bool {
    let n = name.len() as int;
    n > 4 && name[n - 4] == '.' && name[n - 3] == 'e' && name[n - 2] == 'x' && name[n - 1] == 'e'
}

/// The operations that refresh the executables among `entries`: a copy of
/// the dispatcher binary over each, in the order of `entries`.
pub open spec fn refresh_ops(entries: Seq<Seq<char>>) -> Seq<FileOpView>
    decreases entries.len(),
{
    if entries.len() == 0 {
        seq![]
    } else if has_exe_extension(entries.last()) {
        refresh_ops(entries.drop_last()).push(
            FileOpView::Copy { source: "nvmd.exe"@, target: entries.last() },
        )
    } else {
        refresh_ops(entries.drop_last())
    }
}

/// The last operations of the refresh, given the names found in the
/// directory of the launcher shims: on [`Platform::Windows`] a copy of the
/// dispatcher binary over every executable found, and then, on either
/// platform, the current schema version.
pub open spec fn conclude_ops(platform: Platform, entries: Seq<Seq<char>>) -> Seq<FileOpView> {
    let save = FileOpView::SaveVersion { version: CURRENT_MIGRATION_VERSION as int };
    match platform {
        Platform::Unix => seq![save],
        Platform::Windows => refresh_ops(entries).push(save),
    }
}

/// The operations of the refresh: the first ones, then the last ones.
pub open spec fn normalize_ops(platform: Platform, entries: Seq<Seq<char>>) -> Seq<FileOpView> {
    prepare_ops(platform) + conclude_ops(platform, entries)
}

/// Appends `op` to `ops`.
fn push_op(ops: &mut Vec<FileOp>, op: FileOp)
    ensures
        final(ops).deep_view() == old(ops).deep_view().push(op.deep_view()),
{
    ops.push(op);
    assert(ops.deep_view() =~= old(ops).deep_view().push(op.deep_view()));
}

/// The file name of the dispatcher binary.
fn dispatcher(platform: Platform) -> (name: String)
    ensures
        name@ == dispatcher_name(platform),
{
    match platform {
        Platform::Unix => "nvmd".to_owned(),
        Platform::Windows => "nvmd.exe".to_owned(),
    }
}

/// Lays out the first operations of either step.
pub fn prepare(platform: Platform) -> (ops: Vec<FileOp>)
    ensures
        ops.deep_view() == prepare_ops(platform),
{
    let mut ops: Vec<FileOp> = Vec::new();
    assert(ops.deep_view() =~= Seq::empty());
    push_op(&mut ops, FileOp::CreateBinDir);
    push_op(&mut ops, FileOp::Copy { source: dispatcher(platform), target: dispatcher(platform) });
    assert(ops.deep_view() =~= prepare_ops(platform));
    ops
}

/// The names under which the dispatcher intercepts.
pub fn default_executables() -> (names: Vec<String>)
    ensures
        names.deep_view() == default_names(),
{
    let mut names: Vec<String> = Vec::new();
    names.push("node".to_owned());
    names.push("npm".to_owned());
    names.push("npx".to_owned());
    names.push("corepack".to_owned());
    assert(names.deep_view() =~= default_names());
    names
}

/// Lays out the fresh install of the launcher shims.
pub fn update_schema_from_basic(platform: Platform) -> (ops: Vec<FileOp>)
    ensures
        ops.deep_view() == bootstrap_ops(platform),
{
    let names = default_executables();
    let node = "node".to_owned();
    let mut ops = prepare(platform);
    let ghost head = ops.deep_view();
    let ghost all = names.deep_view();
    let mut i: usize = 0;
    assert(all.take(0) =~= Seq::<Seq<char>>::empty());
    assert(head + shims_ops(platform, all.take(0)) =~= head);
    while i < names.len()
        invariant
            i <= names.len(),
            all == names.deep_view(),
            node@ == "node"@,
            ops.deep_view() == head + shims_ops(platform, all.take(i as int)),
        decreases names.len() - i,
    {
        let name = &names[i];
        let ghost before = ops.deep_view();
        assert(all[i as int] == name@);
        match platform {
            Platform::Unix => {
                push_op(&mut ops, FileOp::Link { target: "nvmd".to_owned(), name: name.clone() });
            },
            Platform::Windows => {
                push_op(
                    &mut ops,
                    FileOp::Copy {
                        source: "nvmd.exe".to_owned(),
                        target: name.clone().concat(".exe"),
                    },
                );
                if *name != node {
                    push_op(
                        &mut ops,
                        FileOp::Copy {
                            source: "temp.cmd".to_owned(),
                            target: name.clone().concat(".cmd"),
                        },
                    );
                }
            },
        }
        proof {
            let longer = all.take(i + 1);
            assert(longer.drop_last() =~= all.take(i as int));
            assert(longer.last() == name@);
            assert(ops.deep_view() =~= before + shim_ops(platform, name@));
            assert(before + shim_ops(platform, name@) =~= head + shims_ops(platform, longer));
        }
        i += 1;
    }
    assert(all.take(names.len() as int) =~= all);
    ops
}

/// Whether the file name `name` has the extension `exe`.
pub fn is_executable_name(name: &str) -> (b: bool)
    ensures
        b == has_exe_extension(name@),
{
    let n = name.unicode_len();
    if n <= 4 {
        return false;
    }
    name.get_char(n - 4) == '.' && name.get_char(n - 3) == 'e' && name.get_char(n - 2) == 'x'
        && name.get_char(n - 1) == 'e'
}

/// Appends the last operations of the refresh to `ops`.
fn push_conclusion(ops: &mut Vec<FileOp>, platform: Platform, entries: &Vec<String>)
    ensures
        final(ops).deep_view() == old(ops).deep_view() + conclude_ops(
            platform,
            entries.deep_view(),
        ),
{
    let ghost head = ops.deep_view();
    let ghost all = entries.deep_view();
    match platform {
        Platform::Unix => {},
        Platform::Windows => {
            let mut i: usize = 0;
            assert(all.take(0) =~= Seq::<Seq<char>>::empty());
            assert(head + refresh_ops(all.take(0)) =~= head);
            while i < entries.len()
                invariant
                    i <= entries.len(),
                    all == entries.deep_view(),
                    ops.deep_view() == head + refresh_ops(all.take(i as int)),
                decreases entries.len() - i,
            {
                let name = &entries[i];
                assert(all[i as int] == name@);
                if is_executable_name(name.as_str()) {
                    push_op(
                        ops,
                        FileOp::Copy { source: "nvmd.exe".to_owned(), target: name.clone() },
                    );
                }
                proof {
                    let longer = all.take(i + 1);
                    assert(longer.drop_last() =~= all.take(i as int));
                    assert(longer.last() == name@);
                    assert(ops.deep_view() =~= head + refresh_ops(longer));
                }
                i += 1;
            }
            assert(all.take(entries.len() as int) =~= all);
        },
    }
    push_op(ops, FileOp::SaveVersion { version: CURRENT_MIGRATION_VERSION });
    assert(ops.deep_view() =~= head + conclude_ops(platform, all));
}

/// Lays out the last operations of the refresh, given the names found in
/// the directory of the launcher shims. Only [`Platform::Windows`] looks
/// at `entries`.
pub fn conclude(platform: Platform, entries: &Vec<String>) -> (ops: Vec<FileOp>)
    ensures
        ops.deep_view() == conclude_ops(platform, entries.deep_view()),
{
    let mut ops: Vec<FileOp> = Vec::new();
    assert(ops.deep_view() =~= Seq::empty());
    push_conclusion(&mut ops, platform, entries);
    assert(ops.deep_view() =~= conclude_ops(platform, entries.deep_view()));
    ops
}

/// Lays out the refresh of the dispatcher binaries, given the names found
/// in the directory of the launcher shims. Only [`Platform::Windows`] looks
/// at `entries`.
pub fn update_schema_to_last(platform: Platform, entries: &Vec<String>) -> (ops: Vec<FileOp>)
    ensures
        ops.deep_view() == normalize_ops(platform, entries.deep_view()),
{
    let mut ops = prepare(platform);
    push_conclusion(&mut ops, platform, entries);
    ops
}

} // verus!
