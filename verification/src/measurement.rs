//! Recording state, numbered measurement file names and measurement series.
use vstd::prelude::*;

verus! {

/// Where a recording (measurement series, time-step recording, ...) stands.
#[derive(Debug, Clone, Copy, PartialEq, Eq, Structural)]
pub enum RecordingStatus {
    /// No recording was requested.
    Unrequested,
    NotStarted,
    InProgress,
    Finished,
}

impl RecordingStatus {
    /// The state that follows `self`; defined only for the two states that
    /// have a successor.
    pub open spec fn next_state(self) -> RecordingStatus {
        match self {
            RecordingStatus::NotStarted => RecordingStatus::InProgress,
            _ => RecordingStatus::Finished,
        }
    }

    /// Status used before any recording was requested.
    pub fn default() -> (s: RecordingStatus)
        ensures
            s == RecordingStatus::Unrequested,
    {
        RecordingStatus::Unrequested
    }

    /// `NotStarted` becomes `InProgress`, `InProgress` becomes `Finished`.
    /// Advancing from `Unrequested` or `Finished` is a usage error.
    pub fn advance_to_next_state(&mut self)
        requires
            *old(self) == RecordingStatus::NotStarted || *old(self) == RecordingStatus::InProgress,
        ensures
            *final(self) == old(self).next_state(),
            *old(self) == RecordingStatus::NotStarted ==> *final(self) == RecordingStatus::InProgress,
            *old(self) == RecordingStatus::InProgress ==> *final(self) == RecordingStatus::Finished,
    {
        match *self {
            RecordingStatus::NotStarted => *self = RecordingStatus::InProgress,
            _ => *self = RecordingStatus::Finished,
        }
    }

    pub fn is_active(&self) -> (b: bool)
        ensures
            b <==> *self == RecordingStatus::InProgress,
    {
        matches!(self, RecordingStatus::InProgress)
    }

    pub fn is_finished(&self) -> (b: bool)
        ensures
            b <==> *self == RecordingStatus::Finished,
    {
        matches!(self, RecordingStatus::Finished)
    }
}

} // verus!

verus! {

/// The character of decimal digit `d`.
pub open spec fn digit_char(d: int) -> char {
    if d == 0 {
        '0'
    } else if d == 1 {
        '1'
    } else if d == 2 {
        '2'
    } else if d == 3 {
        '3'
    } else if d == 4 {
        '4'
    } else if d == 5 {
        '5'
    } else if d == 6 {
        '6'
    } else if d == 7 {
        '7'
    } else if d == 8 {
        '8'
    } else {
        '9'
    }
}

/// Decimal representation of `n`, without leading zeros.
pub open spec fn decimal(n: nat) -> Seq<char>
    decreases n,
{
    if n < 10 {
        seq![digit_char(n as int)]
    } else {
        decimal(n / 10).push(digit_char((n % 10) as int))
    }
}

/// The number that a string of decimal digits denotes, read from the most
/// significant digit on ('0' + d stands for digit d).
pub open spec fn digits_value(s: Seq<char>) -> int
    decreases s.len(),
{
    if s.len() == 0 {
        0
    } else {
        digits_value(s.drop_last()) * 10 + (s.last() as int - '0' as int)
    }
}

/// The character of digit `d` is the one whose code is that of '0' plus `d`.
pub proof fn lemma_digit_char_code(d: int)
    requires
        0 <= d < 10,
    ensures
        digit_char(d) as int == '0' as int + d,
{
}

/// The decimal representation of `n` is made of decimal digits, starts with
/// a nonzero digit unless `n` is 0, and read back as a base-10 number gives
/// `n` again.
pub proof fn lemma_decimal_denotes(n: nat)
    ensures
        digits_value(decimal(n)) == n,
        decimal(n).len() > 0,
        forall|i: int| 0 <= i < decimal(n).len() ==> '0' <= #[trigger] decimal(n)[i] <= '9',
        n > 0 ==> decimal(n)[0] != '0',
    decreases n,
{
    if n < 10 {
        lemma_digit_char_code(n as int);
        let d = decimal(n);
        assert(d.drop_last() =~= Seq::<char>::empty());
        assert(digits_value(d.drop_last()) == 0);
        assert(d.last() == digit_char(n as int));
    } else {
        lemma_decimal_denotes(n / 10);
        lemma_digit_char_code((n % 10) as int);
        let d = decimal(n);
        assert(d.drop_last() =~= decimal(n / 10));
        assert(d[0] == decimal(n / 10)[0]);
        assert(d.last() == digit_char((n % 10) as int));
        assert(digits_value(d) == digits_value(decimal(n / 10)) * 10 + (n % 10));
        assert(n == (n / 10) * 10 + n % 10);
    }
}

/// The one-character string of decimal digit `d`.
fn digit_str(d: u16) -> (s: &'static str)
    requires
        d < 10,
    ensures
        s@ == seq![digit_char(d as int)],
{
    proof {
        reveal_strlit("0");
        reveal_strlit("1");
        reveal_strlit("2");
        reveal_strlit("3");
        reveal_strlit("4");
        reveal_strlit("5");
        reveal_strlit("6");
        reveal_strlit("7");
        reveal_strlit("8");
        reveal_strlit("9");
    }
    match d {
        0 => "0",
        1 => "1",
        2 => "2",
        3 => "3",
        4 => "4",
        5 => "5",
        6 => "6",
        7 => "7",
        8 => "8",
        _ => "9",
    }
}

/// Decimal representation of `n`.
pub fn decimal_string(n: u16) -> (s: String)
    ensures
        s@ == decimal(n as nat),
        digits_value(s@) == n,
    decreases n,
{
    proof {
        lemma_decimal_denotes(n as nat);
    }
    if n < 10 {
        String::from_str(digit_str(n))
    } else {
        let mut s = decimal_string(n / 10);
        s.append(digit_str(n % 10));
        s
    }
}

/// File name `<stem>_#<counter>.<ext>`, used to make the name of a
/// measurement file unique.
pub fn numbered_file_name(stem: &str, counter: u16, ext: &str) -> (name: String)
    ensures
        name@ == stem@ + seq!['_', '#'] + decimal(counter as nat) + seq!['.'] + ext@,
{
    proof {
        reveal_strlit("_#");
        reveal_strlit(".");
    }
    let mut name = String::from_str(stem);
    name.append("_#");
    let digits = decimal_string(counter);
    name.append(digits.as_str());
    name.append(".");
    name.append(ext);
    name
}

} // verus!

verus! {

/// First counter tried when a measurement file already exists.
pub const FIRST_FILE_COUNTER: u32 = 2;

/// Largest counter a numbered measurement file name carries.
pub const LAST_FILE_COUNTER: u32 = 65535;

/// The numbered name `<stem>_#<n>.<ext>`.
pub open spec fn numbered_name(stem: Seq<char>, ext: Seq<char>, n: nat) -> Seq<char> {
    stem + seq!['_', '#'] + decimal(n) + seq!['.'] + ext
}

/// What to do with the current candidate file name of a measurement series.
#[derive(Debug, Clone, PartialEq, Eq)]
pub enum FileNameProbe {
    /// No file has the candidate name: it is used.
    Keep,
    /// A file has the candidate name: try `file_name` next, then `next_counter`.
    Rename { file_name: String, next_counter: u32 },
    /// Every numbered name has been tried.
    Exhausted,
}

/// The decision of one round of the search for a free measurement file name
/// `<stem>.<ext>`, `<stem>_#2.<ext>`, ..., `<stem>_#65535.<ext>`: `counter`
/// is the number the next candidate would carry and `exists` whether a file
/// has the current candidate's name.
pub fn probe_file_name(stem: &str, ext: &str, counter: u32, exists: bool) -> (r: FileNameProbe)
    requires
        counter <= LAST_FILE_COUNTER + 1,
    ensures
        !exists ==> r == FileNameProbe::Keep,
        exists && counter > LAST_FILE_COUNTER ==> r == FileNameProbe::Exhausted,
        exists && counter <= LAST_FILE_COUNTER ==> (r matches FileNameProbe::Rename {
            file_name,
            next_counter,
        } && file_name@ == numbered_name(stem@, ext@, counter as nat) && next_counter == counter
            + 1),
{
    if !exists {
        FileNameProbe::Keep
    } else if counter > LAST_FILE_COUNTER {
        FileNameProbe::Exhausted
    } else {
        let n: u16 = counter as u16;
        FileNameProbe::Rename { file_name: numbered_file_name(stem, n, ext), next_counter: counter + 1 }
    }
}

/// Where the search for a free name, at candidate number `n` with the
/// numbered names `taken` on disk, ends: the number of the first free
/// candidate from `n` on, or none when every candidate up to 65535 is taken.
pub open spec fn search_from(stem: Seq<char>, ext: Seq<char>, taken: spec_fn(Seq<char>) -> bool, n: nat) -> Option<nat>
    decreases LAST_FILE_COUNTER + 1 - n,
{
    if n > LAST_FILE_COUNTER {
        None
    } else if !taken(numbered_name(stem, ext, n)) {
        Some(n)
    } else {
        search_from(stem, ext, taken, n + 1)
    }
}

/// The search that [`probe_file_name`] steps through finds the least free
/// numbered name from the first counter tried on, and gives up only when
/// every numbered name up to `<stem>_#65535.<ext>` is taken.
pub proof fn lemma_search_finds_least_free(stem: Seq<char>, ext: Seq<char>, taken: spec_fn(Seq<char>) -> bool, n: nat)
    ensures
        search_from(stem, ext, taken, n) matches Some(m) ==> n <= m <= LAST_FILE_COUNTER && !taken(
            numbered_name(stem, ext, m),
        ) && forall|k: nat| n <= k < m ==> #[trigger] taken(numbered_name(stem, ext, k)),
        search_from(stem, ext, taken, n) is None ==> forall|k: nat|
            n <= k <= LAST_FILE_COUNTER ==> #[trigger] taken(numbered_name(stem, ext, k)),
    decreases LAST_FILE_COUNTER + 1 - n,
{
    if n <= LAST_FILE_COUNTER && taken(numbered_name(stem, ext, n)) {
        lemma_search_finds_least_free(stem, ext, taken, n + 1);
        assert forall|k: nat| n <= k < n + 1 implies #[trigger] taken(numbered_name(stem, ext, k)) by {
            assert(k == n);
        }
    }
}

/// A series of measurements, kept in the order they were taken, and the
/// file path the series is saved to.  `M` is the type of a measurement.
#[derive(Debug, Clone)]
pub struct MeasurementSeries<M> {
    /// Container for intermediate storage of measurements
    queue: std::collections::VecDeque<M>,
    /// File path to store measurement series to
    file_path: String,
}

impl<M> MeasurementSeries<M> {
    pub closed spec fn measurements(&self) -> Seq<M> {
        self.queue@
    }

    pub closed spec fn path(&self) -> Seq<char> {
        self.file_path@
    }

    /// An empty series saved to `file_path` (a path already made unique).
    pub fn new(file_path: String) -> (s: Self)
        ensures
            s.measurements().len() == 0,
            s.path() == file_path@,
    {
        Self { queue: std::collections::VecDeque::new(), file_path }
    }

    pub fn get_path(&self) -> (p: String)
        ensures
            p@ == self.path(),
    {
        self.file_path.clone()
    }

    pub fn push_back(&mut self, value: M)
        ensures
            final(self).measurements() == old(self).measurements().push(value),
            final(self).path() == old(self).path(),
    {
        self.queue.push_back(value);
    }

    /// Number of measurements taken.
    pub fn len(&self) -> (n: usize)
        ensures
            n == self.measurements().len(),
    {
        self.queue.len()
    }

    /// The `i`-th measurement taken.
    pub fn get(&self, i: usize) -> (m: &M)
        requires
            i < self.measurements().len(),
        ensures
            *m == self.measurements()[i as int],
    {
        &self.queue[i]
    }
}

} // verus!
