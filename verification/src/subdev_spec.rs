//! Subdevice specifications: which daughterboard and which of its
//! subdevices a channel uses.

use crate::text::{chars_of, ranges_view, split, split_ranges};
use vstd::prelude::*;
use vstd::string::{StrSliceExecFns, StringExecFns};

verus! {

/// A pair of daughterboard and subdevice names.
///
/// A subdevice is selected by the text `db_name:sd_name`.
#[derive(Clone, Debug, PartialEq, Eq, Hash)]
pub struct SubdevPair {
    db_name: String,
    sd_name: String,
}

/// Why a text is no subdevice specification.
#[derive(Clone, Debug, PartialEq, Eq)]
pub enum SubdevSpecParseError {
    /// The named part of the text is empty or holds more than one `:`.
    InvalidFormat(String),
}

impl SubdevSpecParseError {
    /// The description of the error: `Invalid format: ` and the part of the
    /// text that is at fault.
    pub open spec fn spec_message(self) -> Seq<char> {
        match self {
            SubdevSpecParseError::InvalidFormat(part) => "Invalid format: "@ + part@,
        }
    }

    /// The description of the error.
    pub fn message(&self) -> (text: String)
        ensures
            text@ == self.spec_message(),
    {
        match self {
            SubdevSpecParseError::InvalidFormat(part) => {
                let mut text = String::from_str("Invalid format: ");
                text.append(part.as_str());
                text
            },
        }
    }
}

/// The names that one part of a specification stands for: a part without
/// `:` names a subdevice of the daughterboard without name, a part with one
/// `:` names the daughterboard before it and the subdevice behind it.
/// Nothing if the part is empty or holds more than one `:`.
pub open spec fn parse_pair(part: Seq<char>) -> Option<(Seq<char>, Seq<char>)> {
    let names = split(part, ':');
    if part.len() == 0 {
        None
    } else if names.len() == 1 {
        Some((Seq::empty(), names[0]))
    } else if names.len() == 2 {
        Some((names[0], names[1]))
    } else {
        None
    }
}

/// The pairs that the parts stand for, or the first part that stands for
/// none.
pub open spec fn parse_parts(parts: Seq<Seq<char>>) -> core::result::Result<
    Seq<(Seq<char>, Seq<char>)>,
    Seq<char>,
>
    decreases parts.len(),
{
    if parts.len() == 0 {
        Ok(Seq::empty())
    } else {
        match parse_pair(parts[0]) {
            None => Err(parts[0]),
            Some(pair) => match parse_parts(parts.drop_first()) {
                Ok(rest) => Ok(seq![pair] + rest),
                Err(part) => Err(part),
            },
        }
    }
}

/// The pairs that a specification such as `A:0 B:0` stands for: its parts
/// are set apart by single spaces. Or the first part that is at fault.
pub open spec fn parse_spec(text: Seq<char>) -> core::result::Result<
    Seq<(Seq<char>, Seq<char>)>,
    Seq<char>,
> {
    parse_parts(split(text, ' '))
}

/// `done` put before the pairs of `rest`, where `rest` has pairs.
pub open spec fn prepend(
    done: Seq<(Seq<char>, Seq<char>)>,
    rest: core::result::Result<Seq<(Seq<char>, Seq<char>)>, Seq<char>>,
) -> core::result::Result<Seq<(Seq<char>, Seq<char>)>, Seq<char>> {
    match rest {
        Ok(pairs) => Ok(done + pairs),
        Err(part) => Err(part),
    }
}

/// The names of a list of pairs.
pub open spec fn pairs_view(pairs: Seq<SubdevPair>) -> Seq<(Seq<char>, Seq<char>)> {
    Seq::new(pairs.len(), |i: int| (pairs[i].spec_db_name(), pairs[i].spec_sd_name()))
}

/// A subdevice specification: a list of pairs of daughterboard and
/// subdevice names.
#[derive(Clone, Debug, PartialEq, Eq)]
pub struct SubdevSpec {
    pairs: Vec<SubdevPair>,
}

impl View for SubdevSpec {
    type V = Seq<(Seq<char>, Seq<char>)>;

    closed spec fn view(&self) -> Seq<(Seq<char>, Seq<char>)> {
        pairs_view(self.pairs@)
    }
}

impl SubdevSpec {
    /// An empty specification.
    pub fn new() -> (spec: Self)
        ensures
            spec@ == Seq::<(Seq<char>, Seq<char>)>::empty(),
    {
        let spec = SubdevSpec { pairs: Vec::new() };
        assert(spec@ =~= Seq::empty());
        spec
    }

    /// Reads a specification such as `"A:0"`. The text must be one.
    pub fn from_str(s: &str) -> (spec: Self)
        requires
            parse_spec(s@) is Ok,
        ensures
            Ok::<Seq<(Seq<char>, Seq<char>)>, Seq<char>>(spec@) == parse_spec(s@),
    {
        match Self::try_from_str(s) {
            Ok(spec) => spec,
            Err(_) => SubdevSpec::new(),
        }
    }

    /// Reads a specification such as `"A:0 B:0"`.
    ///
    /// Returns the error `InvalidFormat` with the first part of the text
    /// that is empty or holds more than one `:`.
    pub fn try_from_str(s: &str) -> (res: core::result::Result<Self, SubdevSpecParseError>)
        ensures
            res matches Ok(spec) ==> parse_spec(s@) == Ok::<
                Seq<(Seq<char>, Seq<char>)>,
                Seq<char>,
            >(spec@),
            res matches Err(SubdevSpecParseError::InvalidFormat(part)) ==> parse_spec(s@) == Err::<
                Seq<(Seq<char>, Seq<char>)>,
                Seq<char>,
            >(part@),
    {
        let chars = chars_of(s);
        let parts = split_ranges(&chars, 0, chars.len(), ' ');
        assert(chars@.subrange(0, chars.len() as int) =~= s@);
        let ghost all = split(s@, ' ');
        let mut pairs: Vec<SubdevPair> = Vec::new();
        let mut k: usize = 0;
        assert(all.skip(0) =~= all);
        assert(prepend(pairs_view(pairs@), parse_parts(all)) == parse_parts(all)) by {
            assert(pairs_view(pairs@) =~= Seq::empty());
            match parse_parts(all) {
                Ok(rest) => {
                    assert(pairs_view(pairs@) + rest =~= rest);
                },
                Err(_) => {},
            }
        }
        while k < parts.len()
            invariant
                k <= parts.len(),
                chars@ == s@,
                all == split(s@, ' '),
                all == ranges_view(chars@, parts@),
                forall|j: int|
                    0 <= j < parts.len() ==> (#[trigger] parts[j]).0 <= parts[j].1 <= chars.len(),
                parse_parts(all) == prepend(pairs_view(pairs@), parse_parts(all.skip(k as int))),
            decreases parts.len() - k,
        {
            let (from, to) = parts[k];
            let ghost part = chars@.subrange(from as int, to as int);
            let ghost rest = all.skip(k as int);
            proof {
                assert(rest[0] == part);
                assert(rest.drop_first() =~= all.skip(k + 1));
            }
            if from == to {
                assert(parse_pair(part) is None);
                let at_fault = s.substring_char(from, to).to_owned();
                return Err(SubdevSpecParseError::InvalidFormat(at_fault));
            }
            let names = split_ranges(&chars, from, to, ':');
            if names.len() == 1 {
                let (a, b) = names[0];
                let sd_name = s.substring_char(a, b).to_owned();
                let pair = SubdevPair { db_name: String::new(), sd_name };
                proof {
                    assert(split(part, ':')[0] == chars@.subrange(a as int, b as int));
                    assert(parse_pair(part) == Some((Seq::<char>::empty(), sd_name@)));
                    Self::lemma_step(pairs_view(pairs@), rest, (Seq::<char>::empty(), sd_name@));
                    assert(pairs_view(pairs@.push(pair)) =~= pairs_view(pairs@).push(
                        (Seq::<char>::empty(), sd_name@),
                    ));
                }
                pairs.push(pair);
            } else if names.len() == 2 {
                let (a, b) = names[0];
                let (c, d) = names[1];
                let db_name = s.substring_char(a, b).to_owned();
                let sd_name = s.substring_char(c, d).to_owned();
                let pair = SubdevPair { db_name, sd_name };
                proof {
                    assert(split(part, ':')[0] == chars@.subrange(a as int, b as int));
                    assert(split(part, ':')[1] == chars@.subrange(c as int, d as int));
                    assert(parse_pair(part) == Some((db_name@, sd_name@)));
                    Self::lemma_step(pairs_view(pairs@), rest, (db_name@, sd_name@));
                    assert(pairs_view(pairs@.push(pair)) =~= pairs_view(pairs@).push(
                        (db_name@, sd_name@),
                    ));
                }
                pairs.push(pair);
            } else {
                assert(parse_pair(part) is None);
                let at_fault = s.substring_char(from, to).to_owned();
                return Err(SubdevSpecParseError::InvalidFormat(at_fault));
            }
            k += 1;
        }
        proof {
            assert(all.skip(parts.len() as int) =~= Seq::empty());
            assert(pairs_view(pairs@) + Seq::<(Seq<char>, Seq<char>)>::empty() =~= pairs_view(
                pairs@,
            ));
        }
        Ok(SubdevSpec { pairs })
    }

    /// One more part read: its pair moves from what is left to what is
    /// done.
    proof fn lemma_step(
        done: Seq<(Seq<char>, Seq<char>)>,
        rest: Seq<Seq<char>>,
        pair: (Seq<char>, Seq<char>),
    )
        requires
            rest.len() > 0,
            parse_pair(rest[0]) == Some(pair),
        ensures
            prepend(done, parse_parts(rest)) == prepend(
                done.push(pair),
                parse_parts(rest.drop_first()),
            ),
    {
        match parse_parts(rest.drop_first()) {
            Ok(tail) => {
                assert(done + (seq![pair] + tail) =~= done.push(pair) + tail);
            },
            Err(_) => {},
        }
    }

    /// Adds a subdevice at the end.
    pub fn push(&mut self, db_name: &str, sd_name: &str)
        ensures
            final(self)@ == old(self)@.push((db_name@, sd_name@)),
    {
        let pair = SubdevPair::new(db_name, sd_name);
        self.pairs.push(pair);
        assert(self@ =~= old(self)@.push((db_name@, sd_name@)));
    }

    /// The number of subdevices in the specification.
    pub fn len(&self) -> (n: usize)
        ensures
            n == self@.len(),
    {
        self.pairs.len()
    }

    /// Whether the specification names no subdevice.
    pub fn is_empty(&self) -> (empty: bool)
        ensures
            empty == (self@.len() == 0),
    {
        self.pairs.len() == 0
    }

    /// The subdevice at the given position, if there is one.
    pub fn get(&self, index: usize) -> (res: Option<SubdevPair>)
        ensures
            index < self@.len() ==> res is Some && (
                res->Some_0.spec_db_name(),
                res->Some_0.spec_sd_name(),
            ) == self@[index as int],
            index >= self@.len() ==> res is None,
    {
        if index < self.pairs.len() {
            let pair = &self.pairs[index];
            Some(SubdevPair::new(pair.db_name(), pair.sd_name()))
        } else {
            None
        }
    }
}

impl SubdevPair {
    /// The daughterboard name.
    pub closed spec fn spec_db_name(&self) -> Seq<char> {
        self.db_name@
    }

    /// The subdevice name.
    pub closed spec fn spec_sd_name(&self) -> Seq<char> {
        self.sd_name@
    }

    /// The text that selects the pair: `db_name:sd_name`.
    pub open spec fn spec_text(&self) -> Seq<char> {
        self.spec_db_name() + seq![':'] + self.spec_sd_name()
    }

    /// A pair of the given names.
    pub fn new(db_name: &str, sd_name: &str) -> (pair: Self)
        ensures
            pair.spec_db_name() == db_name@,
            pair.spec_sd_name() == sd_name@,
    {
        SubdevPair { db_name: db_name.to_owned(), sd_name: sd_name.to_owned() }
    }

    /// The daughterboard name.
    pub fn db_name(&self) -> (name: &str)
        ensures
            name@ == self.spec_db_name(),
    {
        self.db_name.as_str()
    }

    /// The subdevice name.
    pub fn sd_name(&self) -> (name: &str)
        ensures
            name@ == self.spec_sd_name(),
    {
        self.sd_name.as_str()
    }

    /// The text that selects the pair.
    pub fn to_string(&self) -> (text: String)
        ensures
            text@ == self.spec_text(),
    {
        proof {
            reveal_strlit(":");
            assert(":"@ =~= seq![':']);
        }
        let mut text = self.db_name.clone();
        text.append(":");
        text.append(self.sd_name.as_str());
        text
    }
}

} // verus!
