//! The request side: the typed input and the query pairs it stands for.
use vstd::prelude::*;

verus! {

/// The upstream data source that quotes are taken from.
#[derive(Clone, Copy, Debug, PartialEq, Eq, Structural)]
pub enum Feed {
    /// The free exchange feed.
    IEX,
    /// The consolidated (premium) feed.
    SIP,
}

/// The wire value of a feed.
pub open spec fn feed_text(feed: Feed) -> Seq<char> {
    match feed {
        Feed::IEX => seq!['i', 'e', 'x'],
        Feed::SIP => seq!['s', 'i', 'p'],
    }
}

impl Feed {
    /// The value that stands for this feed in a query string.
    pub fn as_str(&self) -> (r: &'static str)
        ensures
            r@ == feed_text(*self),
    {
        match self {
            Feed::IEX => {
                proof {
                    reveal_strlit("iex");
                    assert("iex"@ =~= feed_text(Feed::IEX));
                }
                "iex"
            },
            Feed::SIP => {
                proof {
                    reveal_strlit("sip");
                    assert("sip"@ =~= feed_text(Feed::SIP));
                }
                "sip"
            },
        }
    }
}

/// The parts joined with a comma between each two neighbours.
pub open spec fn comma_joined(parts: Seq<Seq<char>>) -> Seq<char>
    decreases parts.len(),
{
    if parts.len() == 0 {
        Seq::empty()
    } else if parts.len() == 1 {
        parts[0]
    } else {
        comma_joined(parts.drop_last()) + seq![','] + parts.last()
    }
}

/// A request for the latest quote of each of a list of symbols.
#[derive(Clone, Debug, PartialEq, Eq)]
pub struct LastQuoteReq {
    /// The symbols, comma-separated, in the order given.
    pub symbols: String,
    /// The data feed to use; left out of the query when absent.
    pub feed: Option<Feed>,
}

/// The name of the symbol-list parameter.
pub open spec fn symbols_key() -> Seq<char> {
    seq!['s', 'y', 'm', 'b', 'o', 'l', 's']
}

/// The name of the feed parameter.
pub open spec fn feed_key() -> Seq<char> {
    seq!['f', 'e', 'e', 'd']
}

/// The key/value pairs that a request puts into its query string: the
/// symbols first, then the feed if one is set.
pub open spec fn query_pairs(symbols: Seq<char>, feed: Option<Feed>) -> Seq<(Seq<char>, Seq<char>)> {
    match feed {
        None => seq![(symbols_key(), symbols)],
        Some(f) => seq![(symbols_key(), symbols), (feed_key(), feed_text(f))],
    }
}

impl LastQuoteReq {
    /// A request for the given symbols, on the default feed. An empty list
    /// is not refused here: the server decides what it makes of it.
    pub fn new(symbols: Vec<String>) -> (r: Self)
        ensures
            r.symbols@ == comma_joined(symbols@.map_values(|s: String| s@)),
            r.feed is None,
    {
        let ghost parts = symbols@.map_values(|s: String| s@);
        let mut joined = String::new();
        let mut i: usize = 0;
        while i < symbols.len()
            invariant
                i <= symbols.len(),
                parts == symbols@.map_values(|s: String| s@),
                joined@ == comma_joined(parts.take(i as int)),
            decreases symbols.len() - i,
        {
            if i > 0 {
                proof {
                    reveal_strlit(",");
                }
                joined.append(",");
            }
            joined.append(symbols[i].as_str());
            proof {
                let next = parts.take(i + 1);
                assert(next.drop_last() =~= parts.take(i as int));
                assert(next.last() == symbols@[i as int]@);
            }
            i = i + 1;
        }
        proof {
            assert(parts.take(symbols.len() as int) =~= parts);
        }
        LastQuoteReq { symbols: joined, feed: None }
    }

    /// The same request, on the given feed.
    pub fn with_feed(self, feed: Feed) -> (r: Self)
        ensures
            r.symbols@ == self.symbols@,
            r.feed == Some(feed),
    {
        let mut req = self;
        req.feed = Some(feed);
        req
    }

    /// The query pairs of this request, in order.
    pub fn query_pairs(&self) -> (r: Vec<(String, String)>)
        ensures
            r@.map_values(|p: (String, String)| (p.0@, p.1@)) == query_pairs(self.symbols@, self.feed),
    {
        let mut pairs: Vec<(String, String)> = Vec::new();
        proof {
            reveal_strlit("symbols");
            reveal_strlit("feed");
            assert("symbols"@ =~= symbols_key());
            assert("feed"@ =~= feed_key());
        }
        pairs.push(("symbols".to_owned(), self.symbols.clone()));
        match self.feed {
            None => {},
            Some(f) => {
                pairs.push(("feed".to_owned(), f.as_str().to_owned()));
            },
        }
        proof {
            assert(pairs@.map_values(|p: (String, String)| (p.0@, p.1@)) =~= query_pairs(self.symbols@, self.feed));
        }
        pairs
    }
}

/// Without a feed the query holds no `feed` pair at all, not one with an
/// empty value.
pub proof fn lemma_no_feed_pair_without_feed(symbols: Seq<char>)
    ensures
        forall|i: int|
            0 <= i < query_pairs(symbols, None).len() ==> #[trigger] query_pairs(symbols, None)[i].0 != feed_key(),
{
    assert(symbols_key().len() != feed_key().len());
}

} // verus!
