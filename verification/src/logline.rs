//! The lines that the monitor logs, and the name of the file it logs to.

use vstd::prelude::*;
use vstd::string::*;
use crate::clock::{clock_text, compact_text, two_digits, year_text, Moment, Timestamp};
use crate::decimal::{all_digits, is_digit, lemma_digits_len, lemma_padded};

verus! {

/// A logged line: the stamp in square brackets, a space, the message.
pub open spec fn line_text(at: Moment, message: Seq<char>) -> Seq<char> {
    "["@ + clock_text(at) + "] "@ + message
}

/// The name of the log file of a run that started at `started_at`.
pub open spec fn file_name_text(started_at: Moment) -> Seq<char> {
    "select_monitor_"@ + compact_text(started_at) + ".log"@
}

/// Whether `stamp` reads `dddd-dd-dd dd:dd:dd`, each `d` a digit.
pub open spec fn is_clock_stamp(stamp: Seq<char>) -> bool {
    &&& stamp.len() == 19
    &&& all_digits(stamp.subrange(0, 4))
    &&& stamp[4] == '-'
    &&& all_digits(stamp.subrange(5, 7))
    &&& stamp[7] == '-'
    &&& all_digits(stamp.subrange(8, 10))
    &&& stamp[10] == ' '
    &&& all_digits(stamp.subrange(11, 13))
    &&& stamp[13] == ':'
    &&& all_digits(stamp.subrange(14, 16))
    &&& stamp[16] == ':'
    &&& all_digits(stamp.subrange(17, 19))
}

/// Whether `name` reads `select_monitor_dddddddd_dddddd.log`, each `d` a
/// digit.
pub open spec fn is_log_file_name(name: Seq<char>) -> bool {
    &&& name.len() == 34
    &&& name.subrange(0, 15) == "select_monitor_"@
    &&& all_digits(name.subrange(15, 23))
    &&& name[23] == '_'
    &&& all_digits(name.subrange(24, 30))
    &&& name.subrange(30, 34) == ".log"@
}

/// Writes the line that logs `message` at the moment `at`.
pub fn format_line(at: &Timestamp, message: &str) -> (line: String)
    ensures
        line@ == line_text(at@, message@),
{
    let mut line = String::from_str("[");
    line.append(at.clock_text().as_str());
    line.append("] ");
    line.append(message);
    line
}

/// Writes the line that logs `message` now, by the local clock.
///
/// Which moment the clock shows is not known in advance; the line is the one
/// that [`format_line`] writes for it.
pub fn log_line(message: &str) -> (line: String)
    ensures
        exists|at: Moment| at.valid() && line@ == line_text(at, message@),
{
    let now = Timestamp::now();
    let line = format_line(&now, message);
    assert(now@.valid() && line@ == line_text(now@, message@));
    line
}

/// Names the log file of a run that started at `started_at`.
pub fn log_file_name(started_at: &Timestamp) -> (name: String)
    ensures
        name@ == file_name_text(started_at@),
{
    let mut name = String::from_str("select_monitor_");
    name.append(started_at.compact_text().as_str());
    name.append(".log");
    name
}

/// A field below 100 is written in exactly two digits.
proof fn lemma_two_digits(field: int)
    requires
        0 <= field <= 99,
    ensures
        two_digits(field).len() == 2,
        all_digits(two_digits(field)),
{
    lemma_digits_len(field as nat);
    lemma_padded(field as nat, 2);
}

/// A year from 0 to 9999 is written in exactly four digits.
proof fn lemma_four_digit_year(year: int)
    requires
        0 <= year <= 9999,
    ensures
        year_text(year).len() == 4,
        all_digits(year_text(year)),
{
    lemma_digits_len(year as nat);
    lemma_padded(year as nat, 4);
}

/// In the years 0 to 9999 the stamp of a line has second precision and
/// nothing more: it reads `YYYY-MM-DD HH:MM:SS`, nineteen characters.
pub proof fn law_clock_stamp_shape(at: Moment)
    requires
        at.valid(),
        0 <= at.year <= 9999,
    ensures
        is_clock_stamp(clock_text(at)),
{
    lemma_four_digit_year(at.year);
    lemma_two_digits(at.month);
    lemma_two_digits(at.day);
    lemma_two_digits(at.hour);
    lemma_two_digits(at.minute);
    lemma_two_digits(at.second);
    let stamp = clock_text(at);
    assert(stamp.subrange(0, 4) =~= year_text(at.year));
    assert(stamp.subrange(5, 7) =~= two_digits(at.month));
    assert(stamp.subrange(8, 10) =~= two_digits(at.day));
    assert(stamp.subrange(11, 13) =~= two_digits(at.hour));
    assert(stamp.subrange(14, 16) =~= two_digits(at.minute));
    assert(stamp.subrange(17, 19) =~= two_digits(at.second));
}

/// In the years 0 to 9999 the log file's name matches
/// `select_monitor_\d{8}_\d{6}\.log`.
pub proof fn law_log_file_name_shape(started_at: Moment)
    requires
        started_at.valid(),
        0 <= started_at.year <= 9999,
    ensures
        is_log_file_name(file_name_text(started_at)),
{
    reveal_strlit("select_monitor_");
    reveal_strlit(".log");
    lemma_four_digit_year(started_at.year);
    lemma_two_digits(started_at.month);
    lemma_two_digits(started_at.day);
    lemma_two_digits(started_at.hour);
    lemma_two_digits(started_at.minute);
    lemma_two_digits(started_at.second);
    let name = file_name_text(started_at);
    let date = year_text(started_at.year) + two_digits(started_at.month) + two_digits(
        started_at.day,
    );
    let time = two_digits(started_at.hour) + two_digits(started_at.minute) + two_digits(
        started_at.second,
    );
    assert(name.len() == 34);
    assert(name.subrange(0, 15) =~= "select_monitor_"@);
    assert(name.subrange(15, 23) =~= date);
    assert(name.subrange(24, 30) =~= time);
    assert(name.subrange(30, 34) =~= ".log"@);
    assert forall|i: int| 0 <= i < date.len() implies is_digit(#[trigger] date[i]) by {
        if i < 4 {
            assert(date[i] == year_text(started_at.year)[i]);
        } else if i < 6 {
            assert(date[i] == two_digits(started_at.month)[i - 4]);
        } else {
            assert(date[i] == two_digits(started_at.day)[i - 6]);
        }
    }
    assert forall|i: int| 0 <= i < time.len() implies is_digit(#[trigger] time[i]) by {
        if i < 2 {
            assert(time[i] == two_digits(started_at.hour)[i]);
        } else if i < 4 {
            assert(time[i] == two_digits(started_at.minute)[i - 2]);
        } else {
            assert(time[i] == two_digits(started_at.second)[i - 4]);
        }
    }
}

} // verus!
