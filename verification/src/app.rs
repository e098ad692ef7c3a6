//! Everything needed to build and start the server, and nothing that is only
//! known once it is running.
use vstd::prelude::*;

verus! {

pub struct ApplicationConfiguration {
    pub database_url: String,
    pub host: String,
    pub port: u16,
    pub workers: usize,
    pub log_level: String,
}

impl Default for ApplicationConfiguration {
    fn default() -> (c: Self)
        ensures
            c.database_url@ == Seq::<char>::empty(),
            c.host@ == "0.0.0.0"@,
            c.port == 8080,
            c.workers == 4,
            c.log_level@ == "info"@,
    {
        ApplicationConfiguration {
            database_url: String::new(),
            host: String::from_str("0.0.0.0"),
            port: 8080,
            workers: 4,
            log_level: String::from_str("info"),
        }
    }
}

pub open spec fn is_decimal_digit(c: char) -> bool {
    '0' <= c && c <= '9'
}

/// The number a string of decimal digits spells.
pub open spec fn decimal_value(s: Seq<char>) -> nat
    decreases s.len(),
{
    if s.len() == 0 {
        0
    } else {
        decimal_value(s.drop_last()) * 10 + (s.last() as int - '0' as int) as nat
    }
}

/// The digits part of an unsigned integer's text: everything after an
/// optional leading `+`.
pub open spec fn unsigned_digits(s: Seq<char>) -> Seq<char> {
    if s.len() > 0 && s[0] == '+' {
        s.drop_first()
    } else {
        s
    }
}

/// What `str::parse` gives for an unsigned integer type whose largest value
/// is `max`: an optional `+` followed by at least one decimal digit, nothing
/// else, and a value that fits.
pub open spec fn parsed_unsigned(s: Seq<char>, max: nat) -> Option<nat> {
    let d = unsigned_digits(s);
    if d.len() > 0 && (forall|i: int| 0 <= i < d.len() ==> is_decimal_digit(#[trigger] d[i]))
        && decimal_value(d) <= max {
        Some(decimal_value(d))
    } else {
        None
    }
}

/// An unsigned number reads as `str::parse` reads it: a non-empty run of
/// decimal digits is its value when that fits and nothing otherwise (leading
/// zeros included); a leading `+` changes nothing; an empty text, a lone
/// `+`, or any other character anywhere reads as nothing.
pub proof fn law_unsigned_text_reads_as_its_digits(d: Seq<char>, max: nat)
    ensures
        parsed_unsigned(Seq::empty(), max) is None,
        parsed_unsigned(seq!['+'], max) is None,
        d.len() > 0 && (forall|i: int| 0 <= i < d.len() ==> is_decimal_digit(#[trigger] d[i])) ==> (
        parsed_unsigned(d, max) == (if decimal_value(d) <= max {
            Some(decimal_value(d))
        } else {
            None
        }) && parsed_unsigned(seq!['+'] + d, max) == parsed_unsigned(d, max)),
        (exists|i: int| 0 <= i < d.len() && !is_decimal_digit(#[trigger] d[i]) && !(i == 0 && d[i] == '+'))
            ==> parsed_unsigned(d, max) is None,
        decimal_value(seq!['0'] + d) == decimal_value(d),
{
    assert(unsigned_digits(seq!['+']) =~= Seq::<char>::empty());
    if d.len() > 0 && (forall|i: int| 0 <= i < d.len() ==> is_decimal_digit(#[trigger] d[i])) {
        assert(is_decimal_digit(d[0]));
        assert(unsigned_digits(d) == d);
        assert(unsigned_digits(seq!['+'] + d) =~= d);
    }
    if exists|i: int| 0 <= i < d.len() && !is_decimal_digit(#[trigger] d[i]) && !(i == 0 && d[i] == '+') {
        let i = choose|i: int| 0 <= i < d.len() && !is_decimal_digit(#[trigger] d[i]) && !(i == 0 && d[i] == '+');
        let u = unsigned_digits(d);
        if d[0] == '+' {
            assert(i > 0);
            assert(u[i - 1] == d[i]);
            assert(!is_decimal_digit(u[i - 1]));
        } else {
            assert(u[i] == d[i]);
        }
    }
    lemma_leading_zero_keeps_value(d);
}

proof fn lemma_leading_zero_keeps_value(d: Seq<char>)
    ensures
        decimal_value(seq!['0'] + d) == decimal_value(d),
    decreases d.len(),
{
    let x = seq!['0'] + d;
    if d.len() == 0 {
        assert(x.drop_last() =~= Seq::<char>::empty());
        assert(decimal_value(x.drop_last()) == 0);
        assert(x.last() == '0');
    } else {
        assert(x.drop_last() =~= seq!['0'] + d.drop_last());
        assert(x.last() == d.last());
        lemma_leading_zero_keeps_value(d.drop_last());
        assert(decimal_value(x.drop_last()) == decimal_value(d.drop_last()));
    }
}

proof fn lemma_decimal_value_grows(s: Seq<char>, i: int)
    requires
        0 <= i <= s.len(),
        forall|k: int| 0 <= k < s.len() ==> is_decimal_digit(#[trigger] s[k]),
    ensures
        decimal_value(s.take(i)) <= decimal_value(s),
    decreases s.len() - i,
{
    if i < s.len() {
        assert(s.take(i + 1).drop_last() =~= s.take(i));
        lemma_decimal_value_grows(s, i + 1);
    } else {
        assert(s.take(i) =~= s);
    }
}

/// Reads an unsigned decimal number no larger than `max`, as `str::parse`
/// reads one for an unsigned integer type.
pub fn parse_unsigned(s: &str, max: u64) -> (r: Option<u64>)
    ensures
        match parsed_unsigned(s@, max as nat) {
            Some(v) => r == Some(v as u64),
            None => r is None,
        },
{
    let n = s.unicode_len();
    let mut i: usize = 0;
    if n > 0 && s.get_char(0) == '+' {
        i = 1;
    }
    let ghost d = unsigned_digits(s@);
    let ghost start = i as int;
    proof {
        assert(d =~= s@.skip(start));
    }
    if i >= n {
        return None;
    }
    let mut v: u64 = 0;
    while i < n
        invariant
            n == s@.len(),
            d == s@.skip(start),
            d == unsigned_digits(s@),
            start <= i <= n,
            start == 0 || start == 1,
            forall|k: int| 0 <= k < i - start ==> is_decimal_digit(#[trigger] d[k]),
            v == decimal_value(d.take(i - start)),
            v <= max,
        decreases n - i,
    {
        let c = s.get_char(i);
        assert(c == d[i - start]);
        if !('0' <= c && c <= '9') {
            assert(!is_decimal_digit(d[i - start]));
            return None;
        }
        let digit: u64 = (c as u32 - '0' as u32) as u64;
        assert(d.take(i - start + 1).drop_last() =~= d.take(i - start));
        assert(d.take(i - start + 1).last() == c);
        let next: u128 = v as u128 * 10 + digit as u128;
        assert(next == decimal_value(d.take(i - start + 1)));
        if next > max as u128 {
            proof {
                if forall|k: int| 0 <= k < d.len() ==> is_decimal_digit(#[trigger] d[k]) {
                    lemma_decimal_value_grows(d, i - start + 1);
                }
            }
            return None;
        }
        v = next as u64;
        i = i + 1;
    }
    proof {
        assert(d.take(n - start) =~= d);
    }
    Some(v)
}

impl ApplicationConfiguration {
    /// Builds the configuration from the values of `DATABASE_URL`, `HOST`,
    /// `PORT`, `WORKERS` and `LOG_LEVEL`, falling back to the defaults for
    /// everything except the database url, which has no sensible default and
    /// must be provided. A port or worker count that does not read as a
    /// number of its type falls back to the default too.
    pub fn from_env_values(
        database_url: Option<String>,
        host: Option<String>,
        port: Option<String>,
        workers: Option<String>,
        log_level: Option<String>,
    ) -> (r: Result<ApplicationConfiguration, String>)
        ensures
            database_url is None ==> (r matches Err(m) && m@ == "DATABASE_URL must be set"@),
            database_url matches Some(u) ==> (r matches Ok(c) && c.database_url == u && c.host@
                == (match host {
                Some(h) => h@,
                None => "0.0.0.0"@,
            }) && c.port == (match port {
                Some(p) => match parsed_unsigned(p@, 65535) {
                    Some(v) => v as u16,
                    None => 8080,
                },
                None => 8080,
            }) && c.workers == (match workers {
                Some(w) => match parsed_unsigned(w@, usize::MAX as nat) {
                    Some(v) => v as usize,
                    None => 4,
                },
                None => 4,
            }) && c.log_level@ == (match log_level {
                Some(l) => l@,
                None => "info"@,
            })),
    {
        let defaults = ApplicationConfiguration::default();
        let database_url = match database_url {
            Some(u) => u,
            None => {
                return Err(String::from_str("DATABASE_URL must be set"));
            },
        };
        let host = match host {
            Some(h) => h,
            None => defaults.host,
        };
        let port = match port {
            Some(p) => match parse_unsigned(p.as_str(), 65535) {
                Some(v) => v as u16,
                None => defaults.port,
            },
            None => defaults.port,
        };
        let workers = match workers {
            Some(w) => match parse_unsigned(w.as_str(), usize::MAX as u64) {
                Some(v) => v as usize,
                None => defaults.workers,
            },
            None => defaults.workers,
        };
        let log_level = match log_level {
            Some(l) => l,
            None => defaults.log_level,
        };
        Ok(ApplicationConfiguration { database_url, host, port, workers, log_level })
    }
}

} // verus!
