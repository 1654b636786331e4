//! Command-line argument handling: one directory argument, and an
//! optional flag that turns on the modal navigation scheme. A missing or
//! empty directory argument is the only fatal startup error.

use vstd::prelude::*;
use crate::text::str_chars;

verus! {

/// The flag that enables modal navigation, short form.
pub open spec fn vi_flag_short() -> Seq<char> {
    seq!['-', '-', 'v', 'i']
}

/// The flag that enables modal navigation, long form.
pub open spec fn vi_flag_long() -> Seq<char> {
    seq!['-', '-', 'v', 'i', '-', 'm', 'o', 'd', 'e']
}

/// Whether an argument is one of the two modal-navigation flags.
pub open spec fn is_vi_flag(a: Seq<char>) -> bool {
    a == vi_flag_short() || a == vi_flag_long()
}

/// Whether an argument begins with two dashes; such arguments are never
/// taken as the directory.
pub open spec fn is_option_like(a: Seq<char>) -> bool {
    a.len() >= 2 && a[0] == '-' && a[1] == '-'
}

/// The directory choice: the last argument that does not look like an
/// option, if any.
pub open spec fn last_plain_arg(args: Seq<String>) -> Option<Seq<char>>
    decreases args.len(),
{
    if args.len() == 0 {
        None
    } else if !is_option_like(args.last()@) {
        Some(args.last()@)
    } else {
        last_plain_arg(args.drop_last())
    }
}

/// Some argument is a modal-navigation flag.
pub open spec fn has_vi_flag(args: Seq<String>) -> bool {
    exists|i: int| 0 <= i < args.len() && is_vi_flag(args[i]@)
}

/// A parsed invocation: the directory to scan and whether the modal
/// scheme is on.
pub struct Config {
    pub dir: String,
    pub vi_mode: bool,
}

/// Whether `a` is one of the two modal-navigation flags.
fn is_vi_flag_exec(a: &str) -> (r: bool)
    ensures
        r == is_vi_flag(a@),
{
    let v = str_chars(a);
    if v.len() == 4 {
        let r = v[0] == '-' && v[1] == '-' && v[2] == 'v' && v[3] == 'i';
        proof {
            if r {
                assert(a@ =~= vi_flag_short());
            }
        }
        r
    } else if v.len() == 9 {
        let r = v[0] == '-' && v[1] == '-' && v[2] == 'v' && v[3] == 'i' && v[4] == '-' && v[5]
            == 'm' && v[6] == 'o' && v[7] == 'd' && v[8] == 'e';
        proof {
            if r {
                assert(a@ =~= vi_flag_long());
            }
        }
        r
    } else {
        false
    }
}

/// Whether `a` begins with two dashes.
fn is_option_like_exec(a: &str) -> (r: bool)
    ensures
        r == is_option_like(a@),
{
    let n = a.unicode_len();
    n >= 2 && a.get_char(0) == '-' && a.get_char(1) == '-'
}

/// Parses the arguments after the program name: the last argument that
/// does not look like an option names the directory; an empty or absent
/// one is the usage error; either flag form turns the modal scheme on.
pub fn parse_args(args: &Vec<String>) -> (r: Option<Config>)
    ensures
        match r {
            Some(c) => {
                &&& last_plain_arg(args@) == Some(c.dir@)
                &&& c.dir@.len() > 0
                &&& c.vi_mode == has_vi_flag(args@)
            },
            None => last_plain_arg(args@) is None || last_plain_arg(args@) == Some(
                Seq::<char>::empty(),
            ),
        },
{
    let n = args.len();
    let mut dir: Option<String> = None;
    let mut vi_mode = false;
    let mut i: usize = 0;
    while i < n
        invariant
            i <= n,
            n == args@.len(),
            vi_mode == has_vi_flag(args@.subrange(0, i as int)),
            match dir {
                Some(d) => last_plain_arg(args@.subrange(0, i as int)) == Some(d@),
                None => last_plain_arg(args@.subrange(0, i as int)) is None,
            },
        decreases n - i,
    {
        let ghost prefix = args@.subrange(0, i as int);
        proof {
            assert(args@.subrange(0, i + 1).drop_last() =~= prefix);
            assert(args@.subrange(0, i + 1).last() == args@[i as int]);
        }
        let a = &args[i];
        if is_vi_flag_exec(a.as_str()) {
            vi_mode = true;
        } else if !is_option_like_exec(a.as_str()) {
            dir = Some(a.clone());
        }
        proof {
            let ext = args@.subrange(0, i + 1);
            if is_vi_flag(args@[i as int]@) {
                assert(has_vi_flag(ext));
            } else {
                assert(has_vi_flag(ext) == has_vi_flag(prefix)) by {
                    if has_vi_flag(ext) {
                        let k = choose|k: int| 0 <= k < ext.len() && is_vi_flag(ext[k]@);
                        assert(k < prefix.len() && prefix[k] == ext[k]);
                    } else if has_vi_flag(prefix) {
                        let k = choose|k: int| 0 <= k < prefix.len() && is_vi_flag(prefix[k]@);
                        assert(ext[k] == prefix[k]);
                    }
                }
            }
        }
        i = i + 1;
    }
    proof {
        assert(args@.subrange(0, n as int) =~= args@);
    }
    match dir {
        Some(d) => {
            if d.as_str().is_empty() {
                None
            } else {
                Some(Config { dir: d, vi_mode })
            }
        },
        None => None,
    }
}

} // verus!
