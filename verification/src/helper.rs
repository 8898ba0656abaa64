use vstd::prelude::*;

use crate::error::UpdateError;
use crate::layout::{str_equal, HELPER_FLAG};

verus! {

/// Whether `c` is an ASCII decimal digit.
pub open spec fn is_digit(c: char) -> bool {
    '0' <= c && c <= '9'
}

/// The number a digit stands for.
pub open spec fn digit_value(c: char) -> nat {
    (c as nat - '0' as nat) as nat
}

/// The digit that stands for `d < 10`.
pub open spec fn digit_char(d: nat) -> char {
    (d + '0' as nat) as char
}

/// The number a string of decimal digits stands for.
pub open spec fn digits_value(s: Seq<char>) -> nat
    decreases s.len(),
{
    if s.len() == 0 {
        0
    } else {
        digits_value(s.drop_last()) * 10 + digit_value(s.last())
    }
}

/// A non-empty string of decimal digits.
pub open spec fn is_digits(s: Seq<char>) -> bool {
    s.len() > 0 && forall|i: int| 0 <= i < s.len() ==> is_digit(#[trigger] s[i])
}

/// What `str::parse::<u32>` accepts: an optional `+` and then decimal digits
/// whose value fits in a `u32`.
pub open spec fn parse_u32_spec(s: Seq<char>) -> Option<u32> {
    let digits = if s.len() > 0 && s[0] == '+' { s.skip(1) } else { s };
    if is_digits(digits) && digits_value(digits) <= u32::MAX {
        Some(digits_value(digits) as u32)
    } else {
        None
    }
}

/// The decimal text of `n` without leading zeros, as `u32::to_string` writes it.
pub open spec fn decimal_spec(n: nat) -> Seq<char>
    decreases n,
{
    if n < 10 {
        seq![digit_char(n)]
    } else {
        decimal_spec(n / 10).push(digit_char(n % 10))
    }
}

/// Decimal text reads back as the number it was written from.
pub proof fn lemma_decimal_reads_back(n: nat)
    ensures
        is_digits(decimal_spec(n)),
        digits_value(decimal_spec(n)) == n,
        decimal_spec(n)[0] != '+',
    decreases n,
{
    if n < 10 {
        let s = decimal_spec(n);
        assert(s.drop_last() =~= Seq::<char>::empty());
        assert(digits_value(Seq::<char>::empty()) == 0);
        assert(digit_value(digit_char(n)) == n);
        assert(digits_value(s) == n);
    } else {
        lemma_decimal_reads_back(n / 10);
        let s = decimal_spec(n);
        assert(s.drop_last() == decimal_spec(n / 10));
        assert(digit_value(digit_char(n % 10)) == n % 10);
        assert(n == (n / 10) * 10 + n % 10);
        assert(s.last() == digit_char(n % 10));
        assert(digits_value(s) == digits_value(s.drop_last()) * 10 + digit_value(s.last()));
        assert(digits_value(s) == n);
        assert forall|i: int| 0 <= i < s.len() implies is_digit(#[trigger] s[i]) by {
            if i < s.len() - 1 {
                assert(s[i] == decimal_spec(n / 10)[i]);
            }
        }
    }
}

/// A `u32` written in decimal parses back to itself.
pub proof fn lemma_pid_text_round_trips(n: u32)
    ensures
        parse_u32_spec(decimal_spec(n as nat)) == Some(n),
{
    lemma_decimal_reads_back(n as nat);
}

fn digit_text(d: u32) -> (res: &'static str)
    requires
        d < 10,
    ensures
        res@ == seq![digit_char(d as nat)],
{
    proof {
        reveal_strlit("0");
        reveal_strlit("1");
        reveal_strlit("2");
        reveal_strlit("3");
        reveal_strlit("4");
        reveal_strlit("5");
        reveal_strlit("6");
        reveal_strlit("7");
        reveal_strlit("8");
        reveal_strlit("9");
    }
    match d {
        0 => "0",
        1 => "1",
        2 => "2",
        3 => "3",
        4 => "4",
        5 => "5",
        6 => "6",
        7 => "7",
        8 => "8",
        _ => "9",
    }
}

/// Writes `n` in decimal.
pub fn format_u32(n: u32) -> (res: String)
    ensures
        res@ == decimal_spec(n as nat),
    decreases n,
{
    if n < 10 {
        String::from_str(digit_text(n))
    } else {
        let head = format_u32(n / 10);
        head.concat(digit_text(n % 10))
    }
}

/// Parses a decimal `u32` as `str::parse::<u32>` does (see `parse_u32_spec`).
pub fn parse_u32(s: &str) -> (res: Option<u32>)
    ensures
        res == parse_u32_spec(s@),
{
    let len = s.unicode_len();
    let mut start: usize = 0;
    if len > 0 && s.get_char(0) == '+' {
        start = 1;
    }
    let ghost digits = if s@.len() > 0 && s@[0] == '+' { s@.skip(1) } else { s@ };
    assert(digits =~= s@.skip(start as int));
    if start >= len {
        return None;
    }
    let mut value: u64 = 0;
    let mut i: usize = start;
    while i < len
        invariant
            len == s@.len(),
            start <= i <= len,
            start < len,
            digits == s@.skip(start as int),
            digits == (if s@.len() > 0 && s@[0] == '+' { s@.skip(1) } else { s@ }),
            value == digits_value(s@.subrange(start as int, i as int)),
            value <= u32::MAX,
            forall|j: int| start <= j < i ==> is_digit(#[trigger] s@[j]),
        decreases len - i,
    {
        let c = s.get_char(i);
        if c < '0' || c > '9' {
            assert(digits[i - start] == s@[i as int]);
            assert(!is_digit(digits[i - start]));
            return None;
        }
        let d = (c as u32 - '0' as u32) as u64;
        let next = value * 10 + d;
        assert(s@.subrange(start as int, i + 1).drop_last() =~= s@.subrange(start as int, i as int));
        if next > u32::MAX as u64 {
            proof {
                lemma_digits_value_grows(digits, (i + 1 - start) as int);
                assert(digits.take(i + 1 - start) =~= s@.subrange(start as int, i + 1));
            }
            return None;
        }
        value = next;
        i = i + 1;
    }
    assert(s@.subrange(start as int, len as int) =~= digits);
    Some(value as u32)
}

/// The value of digits never shrinks as digits are appended.
proof fn lemma_digits_value_grows(s: Seq<char>, k: int)
    requires
        0 <= k <= s.len(),
    ensures
        digits_value(s.take(k)) <= digits_value(s),
    decreases s.len() - k,
{
    if k < s.len() {
        lemma_digits_value_grows(s, k + 1);
        assert(s.take(k + 1).drop_last() =~= s.take(k));
    } else {
        assert(s.take(k) =~= s);
    }
}

/// The arguments the running NyaTerm passes to the update helper before the
/// five paths: the helper flag and its own process ID.
pub fn helper_arguments(pid: u32) -> (res: Vec<String>)
    ensures
        res@.len() == 2,
        res@[0]@ == HELPER_FLAG@,
        res@[1]@ == decimal_spec(pid as nat),
{
    let mut res = Vec::new();
    res.push(String::from_str(HELPER_FLAG));
    res.push(format_u32(pid));
    res
}

/// How a NyaTerm process was started, judged from its command line.
#[derive(Debug)]
pub enum HelperInvocation {
    /// An ordinary start.
    NotRequested,
    /// Started as the update helper, to wait for this parent process.
    Run { parent_pid: u32 },
    /// Started as the update helper with unusable arguments.
    Invalid(UpdateError),
}

/// Reads the helper's command line: the number of arguments (with the program
/// itself), the first argument and the second, each if it is valid Unicode.
/// A start without the helper flag is ordinary; the helper needs exactly eight
/// arguments and a decimal parent process ID.
pub fn parse_helper_invocation(arg_count: usize, flag: Option<&str>, pid: Option<&str>) -> (res: HelperInvocation)
    ensures
        !(flag matches Some(f) && f@ == HELPER_FLAG@) ==> res is NotRequested,
        (flag matches Some(f) && f@ == HELPER_FLAG@) ==> {
            if arg_count != 8 {
                res matches HelperInvocation::Invalid(e) && e is InvalidHelperArguments
            } else {
                match pid {
                    Some(p) => match parse_u32_spec(p@) {
                        Some(n) => res == HelperInvocation::Run { parent_pid: n },
                        None => res matches HelperInvocation::Invalid(e) && e is InvalidParentPid,
                    },
                    None => res matches HelperInvocation::Invalid(e) && e is InvalidParentPid,
                }
            }
        },
{
    let is_helper = match flag {
        Some(f) => str_equal(f, HELPER_FLAG),
        None => false,
    };
    if !is_helper {
        return HelperInvocation::NotRequested;
    }
    if arg_count != 8 {
        return HelperInvocation::Invalid(UpdateError::InvalidHelperArguments);
    }
    match pid {
        Some(p) => match parse_u32(p) {
            Some(n) => HelperInvocation::Run { parent_pid: n },
            None => HelperInvocation::Invalid(UpdateError::InvalidParentPid),
        },
        None => HelperInvocation::Invalid(UpdateError::InvalidParentPid),
    }
}

/// The helper started by a running NyaTerm reads back the process ID it was given.
pub proof fn lemma_helper_reads_its_parent(pid: u32, flag: Seq<char>, pid_text: Seq<char>)
    requires
        flag == HELPER_FLAG@,
        pid_text == decimal_spec(pid as nat),
    ensures
        parse_u32_spec(pid_text) == Some(pid),
{
    lemma_pid_text_round_trips(pid);
}

/// What happened when the helper waited for its parent process to exit.
#[derive(Debug)]
pub enum ParentExit {
    /// The process could not be opened because it no longer exists.
    AlreadyGone,
    /// Opening the process failed otherwise, with this error text.
    OpenFailed(String),
    /// The process exited while the helper waited.
    Exited,
    /// The wait ended without the process exiting (it timed out or failed).
    StillRunning,
    /// The platform cannot wait for a process.
    Unsupported,
}

/// Decides whether the helper may go on once it has waited for its parent:
/// only when the parent has exited or was already gone.
pub fn wait_for_process_exit(observed: ParentExit) -> (res: Result<(), UpdateError>)
    ensures
        res is Ok <==> (observed is AlreadyGone || observed is Exited),
        observed matches ParentExit::OpenFailed(t) ==> res matches Err(UpdateError::ParentOpenFailed(u)) && u == t,
        observed is StillRunning ==> (res matches Err(e) && e is ParentWaitTimedOut),
        observed is Unsupported ==> (res matches Err(e) && e is HelperUnsupported),
{
    match observed {
        ParentExit::AlreadyGone => Ok(()),
        ParentExit::OpenFailed(t) => Err(UpdateError::ParentOpenFailed(t)),
        ParentExit::Exited => Ok(()),
        ParentExit::StillRunning => Err(UpdateError::ParentWaitTimedOut),
        ParentExit::Unsupported => Err(UpdateError::HelperUnsupported),
    }
}

} // verus!
