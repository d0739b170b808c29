//! Cron schedules: the short forms accepted in the configuration, croner's
//! parser, and matching a schedule against the local wall clock.
use vstd::prelude::*;
use crate::text::{
    append_chars, chars_of, count_fields, field_count, is_space, starts_field,
};

verus! {

#[verifier::external_type_specification]
#[verifier::external_body]
pub struct ExCron(croner::Cron);

#[verifier::external_type_specification]
#[verifier::external_body]
pub struct ExCronError(croner::errors::CronError);

/// Whether croner's parser, with the seconds field required and day-of-month
/// and day-of-week combined by "and", accepts `pattern`.
pub uninterp spec fn cron_accepts(pattern: Seq<char>) -> bool;

/// The pattern text that croner keeps for an accepted `pattern` (`Cron::as_str`):
/// `?` turned into `*`, `@` nicknames and weekday and month names replaced, trimmed.
pub uninterp spec fn cron_text(pattern: Seq<char>) -> Seq<char>;

/// The message (`CronError::to_string`) with which croner's parser, configured
/// as for `cron_accepts`, refuses `pattern`.
pub uninterp spec fn cron_refusal(pattern: Seq<char>) -> Seq<char>;

/// Whether croner's `Cron::is_time_matching` holds for the schedule parsed from
/// `pattern` at the local wall-clock time `wall_clock`, counted in seconds from
/// 1970-01-01 00:00:00 as if that wall clock were UTC.
pub uninterp spec fn cron_matches(pattern: Seq<char>, wall_clock: i64) -> bool;

/// The wall-clock times at which croner can match: every time that chrono
/// can represent (years -262143 to 262142), except the first day of the
/// earliest year and the last month of the latest year, where the dates that
/// croner derives while matching (the day before and after, a week later,
/// the days of the month, the first of the next month) leave chrono's range
/// and matching fails or panics, depending on the schedule.
pub open spec fn wall_clock_in_range(t: i64) -> bool {
    -8_334_601_142_400 <= t <= 8_210_264_198_399
}

/// `k` leading fields `*`, each followed by a space.
pub open spec fn star_fields(k: nat) -> Seq<char>
    decreases k,
{
    if k == 0 {
        Seq::empty()
    } else {
        seq!['*', ' '] + star_fields((k - 1) as nat)
    }
}

/// A configured schedule with the fields it leaves out filled in: where it has
/// fewer than six whitespace-separated fields, enough leading `* ` are put in
/// front of it to make six.
pub open spec fn normalized_pattern(s: Seq<char>) -> Seq<char> {
    let n = field_count(s);
    if n < 6 {
        star_fields((6 - n) as nat) + s
    } else {
        s
    }
}

/// The reason croner gave for refusing a schedule.
#[derive(Debug)]
pub struct CronParseError {
    pub message: String,
}

/// A schedule that croner accepted, with the text it was parsed from.  Its
/// values come only from `croner_parse` and `croner_duplicate`, which keep
/// croner's parse of the text beside the text itself.
#[derive(Debug)]
pub struct ParsedCron {
    source: String,
    cron: croner::Cron,
}

impl View for ParsedCron {
    type V = Seq<char>;

    /// The (normalized) text the schedule was parsed from.
    closed spec fn view(&self) -> Seq<char> {
        self.source@
    }
}

/// `croner::Cron::new(pattern).with_seconds_required().with_dom_and_dow().parse()`,
/// with the parsed schedule kept beside the text it was parsed from, and a
/// refusal turned into its message (`CronError::to_string`).  Claimed: the
/// parse succeeds exactly when `cron_accepts(pattern)`; the schedule it
/// returns holds `pattern` as its text; a refusal carries `cron_refusal(pattern)`.
#[verifier::external_body]
fn croner_parse(pattern: String) -> (r: Result<ParsedCron, CronParseError>)
    ensures
        r is Ok <==> cron_accepts(pattern@),
        r matches Ok(p) ==> p@ == pattern@,
        r matches Err(e) ==> e.message@ == cron_refusal(pattern@),
{
    match croner::Cron::new(&pattern).with_seconds_required().with_dom_and_dow().parse() {
        Ok(cron) => Ok(ParsedCron { source: pattern, cron }),
        Err(e) => Err(CronParseError { message: e.to_string() }),
    }
}

/// `Cron::clone` (derived) and `String::clone`: a copy of the schedule held
/// in `p` beside a copy of its text, so the copy is the same schedule.
#[verifier::external_body]
fn croner_duplicate(p: &ParsedCron) -> (r: ParsedCron)
    ensures
        r@ == p@,
{
    ParsedCron { source: p.source.clone(), cron: p.cron.clone() }
}

/// `Cron::as_str` on the schedule held in `p`, which croner parsed from `p@`:
/// the result is `cron_text(p@)`.
#[verifier::external_body]
fn croner_as_str(p: &ParsedCron) -> (r: String)
    ensures
        r@ == cron_text(p@),
{
    p.cron.as_str().to_string()
}

/// `Cron::is_time_matching` on the schedule held in `p` (croner's parse of
/// `p@`), at the wall-clock time `wall_clock` turned into a `DateTime` by
/// `DateTime::from_timestamp(wall_clock, 0)`.  Croner only reads the date and
/// time fields of the value it is given, so the result is `cron_matches(p@,
/// wall_clock)`.  In the range that `requires` admits the conversion always
/// succeeds (from -262143-01-02 00:00:00 to 262142-11-30 23:59:59), and
/// croner's source shows that matching then never fails: every field is in
/// range and every date it derives (the day before and after, a week later,
/// the days of the month up to the first of the next month) is a valid date.
#[verifier::external_body]
fn croner_is_time_matching(p: &ParsedCron, wall_clock: i64) -> (r: bool)
    requires
        wall_clock_in_range(wall_clock),
    ensures
        r == cron_matches(p@, wall_clock),
{
    let time = chrono::DateTime::from_timestamp(wall_clock, 0).unwrap();
    p.cron.is_time_matching(&time).unwrap()
}

/// `chrono::Local::now()`, as the seconds that its local date and time are
/// from 1970-01-01 00:00:00.  It depends on the clock and the time zone of the
/// machine: nothing is stated of the result.
#[verifier::external_body]
pub(crate) fn local_wall_clock() -> i64 {
    chrono::Local::now().naive_local().and_utc().timestamp()
}

/// Fills in the leading fields that a configured schedule leaves out, so that
/// `"Sun#1"` becomes `"* * * * * Sun#1"`: where `s` has `n` fields and `n` is
/// under six, the result is `6 - n` times `"* "` followed by `s`; otherwise it
/// is `s` unchanged.
pub fn normalize_pattern(s: &str) -> (r: String)
    ensures
        r@ == normalized_pattern(s@),
        field_count(s@) < 6 ==> r@.len() == s@.len() + 2 * (6 - field_count(s@)),
        field_count(s@) < 6 ==> forall|i: int|
            0 <= i < 2 * (6 - field_count(s@)) ==> #[trigger] r@[i] == if i % 2 == 0 {
                '*'
            } else {
                ' '
            },
        field_count(s@) < 6 ==> r@.skip(2 * (6 - field_count(s@))) == s@,
        field_count(s@) >= 6 ==> r@ == s@,
{
    proof {
        lemma_normalize_fills_stars(s@);
    }
    let v = chars_of(s);
    let n = count_fields(&v);
    let mut r = String::new();
    if n < 6 {
        let mut k: usize = 6 - n;
        while k > 0
            invariant
                k <= 6 - n,
                r@ + star_fields(k as nat) == star_fields((6 - n) as nat),
            decreases k,
        {
            let mut star: Vec<char> = Vec::new();
            star.push('*');
            star.push(' ');
            let ghost before = r@;
            append_chars(&mut r, &star);
            assert(star@ =~= seq!['*', ' ']);
            assert(before + star_fields(k as nat) =~= r@ + star_fields((k - 1) as nat));
            k -= 1;
        }
        assert(r@ =~= star_fields((6 - n) as nat));
    }
    append_chars(&mut r, &v);
    r
}

proof fn lemma_star_fields_chars(k: nat)
    ensures
        star_fields(k).len() == 2 * k,
        forall|i: int|
            0 <= i < 2 * k ==> #[trigger] star_fields(k)[i] == if i % 2 == 0 {
                '*'
            } else {
                ' '
            },
    decreases k,
{
    if k > 0 {
        let t = star_fields((k - 1) as nat);
        lemma_star_fields_chars((k - 1) as nat);
        assert forall|i: int| 0 <= i < 2 * k implies #[trigger] star_fields(k)[i] == if i % 2
            == 0 {
            '*'
        } else {
            ' '
        } by {
            if i >= 2 {
                assert(star_fields(k)[i] == t[i - 2]);
                assert((i - 2) % 2 == i % 2);
            }
        }
    }
}

/// Every field put in front of a schedule with fewer than six fields is `*`:
/// the normalized text is `6 - n` times `"* "` followed by the schedule itself,
/// where the schedule has `n < 6` fields; a schedule with six or more fields
/// is kept as it is.
pub proof fn lemma_normalize_fills_stars(s: Seq<char>)
    ensures
        field_count(s) < 6 ==> normalized_pattern(s).len() == s.len() + 2 * (6 - field_count(s)),
        field_count(s) < 6 ==> forall|i: int|
            0 <= i < 2 * (6 - field_count(s)) ==> #[trigger] normalized_pattern(s)[i] == if i % 2
                == 0 {
                '*'
            } else {
                ' '
            },
        field_count(s) < 6 ==> normalized_pattern(s).skip(2 * (6 - field_count(s))) == s,
        field_count(s) >= 6 ==> normalized_pattern(s) == s,
{
    let n = field_count(s);
    if n < 6 {
        let k = (6 - n) as nat;
        let t = normalized_pattern(s);
        lemma_star_fields_chars(k);
        assert(t == star_fields(k) + s);
        assert forall|i: int| 0 <= i < 2 * (6 - n) implies #[trigger] t[i] == if i % 2 == 0 {
            '*'
        } else {
            ' '
        } by {
            assert(t[i] == star_fields(k)[i]);
        }
        assert(t.skip(2 * (6 - n)) =~= s);
    }
}

proof fn lemma_field_count_concat(a: Seq<char>, b: Seq<char>)
    requires
        a.len() == 0 || is_space(a.last()),
    ensures
        field_count(a + b) == field_count(a) + field_count(b),
    decreases b.len(),
{
    if b.len() == 0 {
        assert(a + b =~= a);
    } else {
        let ab = a + b;
        lemma_field_count_concat(a, b.drop_last());
        assert(ab.drop_last() =~= a + b.drop_last());
        let i = ab.len() - 1;
        let j = b.len() - 1;
        assert(ab[i] == b[j]);
        if j > 0 {
            assert(ab[i - 1] == b[j - 1]);
        }
        assert(starts_field(ab, i) == starts_field(b, j));
    }
}

proof fn lemma_star_fields(k: nat)
    ensures
        field_count(star_fields(k)) == k,
        k > 0 ==> is_space(star_fields(k).last()),
    decreases k,
{
    if k > 0 {
        let two = seq!['*', ' '];
        lemma_star_fields((k - 1) as nat);
        lemma_field_count_concat(two, star_fields((k - 1) as nat));
        assert(two.drop_last() =~= seq!['*']);
        assert(seq!['*'].drop_last() =~= Seq::<char>::empty());
        assert(field_count(Seq::<char>::empty()) == 0);
        assert(starts_field(seq!['*'], 0));
        assert(field_count(seq!['*']) == 1);
        assert(field_count(two) == 1);
        if k > 1 {
            assert(star_fields(k).last() == star_fields((k - 1) as nat).last());
        }
    }
}

/// A normalized schedule has all six fields (or the ones it was given, where
/// that is more), and ends with the text it was made from.
pub proof fn lemma_normalized_fields(s: Seq<char>)
    ensures
        field_count(normalized_pattern(s)) == if field_count(s) < 6 {
            6
        } else {
            field_count(s)
        },
        normalized_pattern(s).len() >= s.len(),
        normalized_pattern(s).subrange(normalized_pattern(s).len() - s.len(), normalized_pattern(
            s,
        ).len() as int) == s,
{
    let n = field_count(s);
    if n < 6 {
        let k = (6 - n) as nat;
        lemma_star_fields(k);
        lemma_field_count_concat(star_fields(k), s);
        let t = star_fields(k) + s;
        assert(t.subrange(t.len() - s.len(), t.len() as int) =~= s);
    } else {
        assert(s.subrange(0, s.len() as int) =~= s);
    }
}

impl ParsedCron {
    /// Parses a configured schedule: fills in the fields it leaves out, then
    /// hands it to croner (seconds field required, day-of-month and day-of-week
    /// combined by "and").  Fails with croner's message where croner refuses it.
    pub fn parse(s: &str) -> (r: Result<ParsedCron, CronParseError>)
        ensures
            r is Ok <==> cron_accepts(normalized_pattern(s@)),
            r matches Ok(p) ==> p@ == normalized_pattern(s@),
            r matches Err(e) ==> e.message@ == cron_refusal(normalized_pattern(s@)),
    {
        let source = normalize_pattern(s);
        croner_parse(source)
    }

    /// The pattern text croner keeps for this schedule (`Cron::as_str`).
    pub fn as_str(&self) -> (r: String)
        ensures
            r@ == cron_text(self@),
    {
        croner_as_str(self)
    }

    /// The text the schedule was parsed from, once normalized.
    pub fn source(&self) -> (r: &str)
        ensures
            r@ == self@,
    {
        self.source.as_str()
    }

    /// A copy of the schedule.
    pub fn duplicate(&self) -> (r: ParsedCron)
        ensures
            r@ == self@,
    {
        croner_duplicate(self)
    }

    /// Whether the schedule matches the local wall-clock time `wall_clock`
    /// (seconds from 1970-01-01 00:00:00 on the local clock).  Times outside
    /// `wall_clock_in_range` never match.
    pub fn matches_at(&self, wall_clock: i64) -> (r: bool)
        ensures
            r == (wall_clock_in_range(wall_clock) && cron_matches(self@, wall_clock)),
    {
        if -8_334_601_142_400 <= wall_clock && wall_clock <= 8_210_264_198_399 {
            croner_is_time_matching(self, wall_clock)
        } else {
            false
        }
    }
}

} // verus!
