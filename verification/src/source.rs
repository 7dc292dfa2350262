use vstd::prelude::*;

use crate::chars::{
    chars_of, opt_view, split_chars, split_first_chars, split_first_on, split_on, string_from_chars,
    trim_chars, trim_spec, views_of,
};
use crate::errors::Error;
use vstd::string::StringExecFns;

verus! {

/// The trimmed name part of a token: what stands before its first `:`, or
/// the whole token without one.
pub open spec fn token_name(tok: Seq<char>) -> Seq<char> {
    match split_first_on(tok, ':') {
        None => trim_spec(tok),
        Some(p) => trim_spec(p.0),
    }
}

/// The trimmed prefix part of a token: what stands after its first `:`, or
/// nothing without one.
pub open spec fn token_prefix(tok: Seq<char>) -> Seq<char> {
    match split_first_on(tok, ':') {
        None => trim_spec(Seq::empty()),
        Some(p) => trim_spec(p.1),
    }
}

/// One parsed source reference: the name of a log group, and an optional
/// prefix naming the substreams of it to read. An absent prefix means all
/// substreams of the source.
#[derive(Debug, Clone, PartialEq, Eq)]
pub struct LogGroupRef {
    pub group_name: String,
    pub stream_prefix: Option<String>,
}

impl View for LogGroupRef {
    type V = (Seq<char>, Option<Seq<char>>);

    open spec fn view(&self) -> (Seq<char>, Option<Seq<char>>) {
        (self.group_name@, opt_view(self.stream_prefix))
    }
}

/// The reference built from a raw name and a raw prefix: both are trimmed,
/// an empty name is rejected, and an empty prefix means "all substreams".
pub open spec fn ref_of_parts(name_raw: Seq<char>, prefix_raw: Seq<char>) -> Option<
    (Seq<char>, Option<Seq<char>>),
> {
    let name = trim_spec(name_raw);
    let prefix = trim_spec(prefix_raw);
    if name.len() == 0 {
        None
    } else {
        Some((name, if prefix.len() == 0 {
            None
        } else {
            Some(prefix)
        }))
    }
}

/// The reference one token denotes: the part before the first `:` names the
/// source, the part after it the substream prefix; without a `:` the whole
/// token names the source.
pub open spec fn parse_token_spec(tok: Seq<char>) -> Option<(Seq<char>, Option<Seq<char>>)> {
    match split_first_on(tok, ':') {
        None => ref_of_parts(tok, Seq::empty()),
        Some(p) => ref_of_parts(p.0, p.1),
    }
}

/// The references a token list denotes, in order: tokens that trim to
/// nothing are dropped, and the first token whose name part trims to nothing
/// is the error.
pub open spec fn parse_tokens(toks: Seq<Seq<char>>) -> Result<
    Seq<(Seq<char>, Option<Seq<char>>)>,
    Seq<char>,
>
    decreases toks.len(),
{
    if toks.len() == 0 {
        Ok(Seq::empty())
    } else {
        let t = trim_spec(toks[0]);
        if t.len() == 0 {
            parse_tokens(toks.drop_first())
        } else {
            match parse_token_spec(t) {
                None => Err(t),
                Some(r) => match parse_tokens(toks.drop_first()) {
                    Ok(rs) => Ok(seq![r] + rs),
                    Err(e) => Err(e),
                },
            }
        }
    }
}

/// What parsing a whole comma-separated reference list yields: the
/// references of its non-empty tokens, in order; an error carrying the first
/// bad token, or the whole input when no token names a source at all.
pub open spec fn parse_spec(s: Seq<char>) -> Result<
    Seq<(Seq<char>, Option<Seq<char>>)>,
    Seq<char>,
> {
    match parse_tokens(split_on(s, ',')) {
        Ok(rs) => if rs.len() == 0 {
            Err(s)
        } else {
            Ok(rs)
        },
        Err(e) => Err(e),
    }
}

impl LogGroupRef {
    /// Builds one reference from a raw group name and stream prefix: both
    /// are trimmed, a name that trims to nothing is rejected with
    /// `InvalidSourceReference` carrying the raw name, and a prefix that
    /// trims to nothing means "all substreams".
    pub fn new(group_name: &str, stream_name: &str) -> (r: Result<Self, Error>)
        ensures
            match ref_of_parts(group_name@, stream_name@) {
                Some(p) => r matches Ok(g) && g@ == p,
                None => r matches Err(e) && e matches Error::InvalidSourceReference(b) && b@
                    == group_name@,
            },
    {
        let name = trim_chars(&chars_of(group_name));
        let prefix = trim_chars(&chars_of(stream_name));

        if name.len() == 0 {
            return Err(Error::InvalidSourceReference(String::from_str(group_name)));
        }

        Ok(
            LogGroupRef {
                group_name: string_from_chars(&name),
                stream_prefix: if prefix.len() == 0 {
                    None
                } else {
                    Some(string_from_chars(&prefix))
                },
            },
        )
    }

    /// Parses a comma-separated list of `name[:prefix]` tokens into
    /// references, one per non-empty token, in order, duplicates kept:
    /// exactly `parse_spec`. Fails with `InvalidSourceReference` when a
    /// token's name part trims to nothing (carrying that token), or when the
    /// input holds no token at all (carrying the whole input).
    pub fn parse(groups_with_stream_prefix: &str) -> (r: Result<Vec<Self>, Error>)
        ensures
            match parse_spec(groups_with_stream_prefix@) {
                Ok(rs) => r matches Ok(v) && v@.map_values(|g: LogGroupRef| g@) == rs,
                Err(t) => r matches Err(e) && e matches Error::InvalidSourceReference(b) && b@
                    == t,
            },
    {
        let cs = chars_of(groups_with_stream_prefix);
        let tokens = split_chars(&cs, ',');
        let ghost tok_views: Seq<Seq<char>> = views_of(tokens@);
        let n = tokens.len();
        let mut out: Vec<LogGroupRef> = Vec::new();
        let mut i: usize = 0;

        proof {
            assert(tok_views.skip(0) =~= tok_views);
            assert(out@.map_values(|g: LogGroupRef| g@) =~= Seq::<
                (Seq<char>, Option<Seq<char>>),
            >::empty());
        }
        while i < n
            invariant
                i <= n,
                n == tokens@.len(),
                tok_views == views_of(tokens@),
                tok_views == split_on(groups_with_stream_prefix@, ','),
                parse_tokens(tok_views) == match parse_tokens(tok_views.skip(i as int)) {
                    Ok(rs) => Ok::<_, Seq<char>>(out@.map_values(|g: LogGroupRef| g@) + rs),
                    Err(e) => Err::<Seq<(Seq<char>, Option<Seq<char>>)>, _>(e),
                },
            decreases n - i,
        {
            let ghost pre = out@.map_values(|g: LogGroupRef| g@);
            proof {
                assert(tok_views.skip(i as int).drop_first() =~= tok_views.skip(i + 1));
                assert(tok_views.skip(i as int)[0] == tokens@[i as int]@);
            }
            let t = trim_chars(&tokens[i]);
            if t.len() > 0 {
                let (name, prefix) = match split_first_chars(&t, ':') {
                    Some((a, b)) => (trim_chars(&a), trim_chars(&b)),
                    None => {
                        let name = trim_chars(&t);
                        proof {
                            assert(trim_spec(Seq::<char>::empty()) == Seq::<char>::empty());
                        }
                        (name, Vec::new())
                    },
                };
                proof {
                    assert(name@ == token_name(t@));
                    assert(prefix@ == token_prefix(t@));
                }
                if name.len() == 0 {
                    return Err(Error::InvalidSourceReference(string_from_chars(&t)));
                }
                let g = LogGroupRef {
                    group_name: string_from_chars(&name),
                    stream_prefix: if prefix.len() == 0 {
                        None
                    } else {
                        Some(string_from_chars(&prefix))
                    },
                };
                out.push(g);
                proof {
                    let r = parse_token_spec(trim_spec(tokens@[i as int]@))->Some_0;
                    assert(g@ == r);
                    assert(out@.map_values(|g: LogGroupRef| g@) =~= pre + seq![r]);
                    let pt = parse_tokens(tok_views.skip(i + 1));
                    if pt is Ok {
                        assert((pre + seq![r]) + pt->Ok_0 =~= pre + (seq![r] + pt->Ok_0));
                    }
                }
            }
            i = i + 1;
        }
        proof {
            assert(tok_views.skip(n as int) =~= Seq::<Seq<char>>::empty());
            assert(out@.map_values(|g: LogGroupRef| g@) + Seq::<
                (Seq<char>, Option<Seq<char>>),
            >::empty() =~= out@.map_values(|g: LogGroupRef| g@));
        }
        if out.len() == 0 {
            return Err(Error::InvalidSourceReference(String::from_str(groups_with_stream_prefix)));
        }
        Ok(out)
    }
}

} // verus!
