//! Generation of synthetic transaction data.
//!
//! The generator itself only shapes values; writing them to and reading them
//! back from CSV files is file I/O and lives with the surrounding
//! application code.

use vstd::prelude::*;

verus! {

/// Whitespace as the timestamp format uses it.
pub open spec fn is_space(c: char) -> bool {
    c == ' ' || c == '\t' || c == '\n' || c == '\r'
}

/// The date portion of a formatted timestamp: leading whitespace is skipped,
/// the first whitespace-separated token is taken, and every dash inside it
/// is dropped.  `started` records whether the token has begun.
pub open spec fn date_part(s: Seq<char>, started: bool) -> Seq<char>
    decreases s.len(),
{
    if s.len() == 0 {
        Seq::empty()
    } else if is_space(s[0]) {
        if started {
            Seq::empty()
        } else {
            date_part(s.drop_first(), false)
        }
    } else if s[0] == '-' {
        date_part(s.drop_first(), true)
    } else {
        seq![s[0]] + date_part(s.drop_first(), true)
    }
}

/// Shapes synthetic transactions, stamped with a fixed timestamp and user.
#[derive(Clone, Debug)]
pub struct TransactionDataGenerator {
    pub output_dir: String,
    pub current_timestamp: String,
    pub current_user: String,
}

impl TransactionDataGenerator {
    /// A generator writing under `output_dir`, stamping `timestamp` and
    /// `user` on every record.
    pub fn new(output_dir: &str, timestamp: &str, user: &str) -> (r: Self)
        ensures
            r.output_dir@ == output_dir@,
            r.current_timestamp@ == timestamp@,
            r.current_user@ == user@,
    {
        TransactionDataGenerator {
            output_dir: output_dir.to_owned(),
            current_timestamp: timestamp.to_owned(),
            current_user: user.to_owned(),
        }
    }

    /// The file name derived from the configured timestamp: the date token
    /// with its dashes removed, between a fixed prefix and the CSV suffix.
    pub fn generate_filename(&self) -> (r: String)
        ensures
            r@ == "transactions_"@ + date_part(self.current_timestamp@, false) + ".csv"@,
    {
        let ts = self.current_timestamp.as_str();
        let n = ts.unicode_len();
        let mut out = String::new();
        out.append("transactions_");
        let ghost mut acc: Seq<char> = Seq::empty();
        let mut i: usize = 0;
        let mut started: bool = false;
        proof {
            assert(out@ =~= "transactions_"@ + acc);
            assert(ts@.skip(0) =~= ts@);
        }
        while i < n
            invariant_except_break
                n == ts@.len(),
                0 <= i <= n,
                out@ == "transactions_"@ + acc,
                date_part(ts@, false) == acc + date_part(ts@.skip(i as int), started),
            ensures
                n == ts@.len(),
                0 <= i <= n,
                out@ == "transactions_"@ + acc,
                date_part(ts@, false) == acc + date_part(ts@.skip(i as int), started),
                i < n ==> date_part(ts@.skip(i as int), started) == Seq::<char>::empty(),
            decreases n - i,
        {
            let c = ts.get_char(i);
            let ghost was_started = started;
            proof {
                assert(ts@.skip(i as int).len() > 0);
                assert(ts@.skip(i as int)[0] == ts@[i as int]);
                assert(ts@.skip(i as int).drop_first() =~= ts@.skip(i as int + 1));
            }
            if c == ' ' || c == '\t' || c == '\n' || c == '\r' {
                proof {
                    assert(is_space(ts@[i as int]));
                }
                if started {
                    proof {
                        assert(date_part(ts@.skip(i as int), started) == Seq::<char>::empty());
                    }
                    break ;
                }
                proof {
                    assert(date_part(ts@.skip(i as int), false) == date_part(
                        ts@.skip(i as int + 1),
                        false,
                    ));
                }
            } else if c == '-' {
                started = true;
                proof {
                    assert(!is_space(ts@[i as int]));
                    assert(date_part(ts@.skip(i as int), was_started) == date_part(
                        ts@.skip(i as int + 1),
                        true,
                    ));
                }
            } else {
                let piece = ts.substring_char(i, i + 1);
                proof {
                    assert(piece@ =~= seq![ts@[i as int]]);
                }
                out.append(piece);
                started = true;
                proof {
                    let x = ts@[i as int];
                    let rest = date_part(ts@.skip(i as int + 1), true);
                    assert(!is_space(x) && x != '-');
                    assert(date_part(ts@.skip(i as int), was_started) == seq![x] + rest);
                    assert(acc + (seq![x] + rest) =~= (acc + seq![x]) + rest);
                    acc = acc + seq![x];
                    assert(out@ =~= "transactions_"@ + acc);
                }
            }
            i = i + 1;
        }
        proof {
            if i == n {
                assert(ts@.skip(i as int).len() == 0);
            }
            assert(date_part(ts@.skip(i as int), started) == Seq::<char>::empty());
            assert(acc + Seq::<char>::empty() =~= acc);
            assert(out@ == "transactions_"@ + date_part(ts@, false));
        }
        out.append(".csv");
        out
    }
}

} // verus!
