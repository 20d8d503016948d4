//! The record and filter types the fetching core moves around.
//!
//! The coordinator never looks inside a [`Proxy`]; it only counts and moves
//! records. A country is carried as its two-letter code, a checked-at instant
//! as seconds since the Unix epoch, so every field is a plain value.

use vstd::prelude::*;
use vstd::string::StringExecFns;

verus! {

/// Anonymity level a proxy offers.
#[derive(Clone, Copy, Debug, PartialEq, Eq, Structural)]
pub enum Level {
    Anonymous,
    Elite,
}

/// Wire protocol a proxy speaks.
#[derive(Clone, Copy, Debug, PartialEq, Eq, Structural)]
pub enum Protocol {
    Http,
    Socks4,
    Socks5,
}

/// Feature flags a proxy supports.
#[derive(Clone, Copy, Debug, PartialEq, Eq, Structural)]
pub struct Supports {
    pub https: bool,
    pub get: bool,
    pub post: bool,
    pub cookies: bool,
    pub referer: bool,
    pub forwards_user_agent: bool,
    pub connects_to_google: bool,
}

impl Default for Supports {
    /// No feature is assumed supported until the listing says so.
    fn default() -> (r: Self)
        ensures
            r == (Supports {
                https: false,
                get: false,
                post: false,
                cookies: false,
                referer: false,
                forwards_user_agent: false,
                connects_to_google: false,
            }),
    {
        Supports {
            https: false,
            get: false,
            post: false,
            cookies: false,
            referer: false,
            forwards_user_agent: false,
            connects_to_google: false,
        }
    }
}

/// One proxy record as the listing service describes it.
#[derive(Clone, Debug, PartialEq)]
pub struct Proxy {
    /// IPv4 address, one octet per entry.
    pub ip: [u8; 4],
    pub port: u16,
    /// Two-letter country code.
    pub country: String,
    /// When the listing last checked the proxy, as seconds since the Unix
    /// epoch.
    pub last_checked: i64,
    pub level: Level,
    pub protocol: Protocol,
    /// Connect-time metric as the listing reports it.
    pub time_to_connect: u8,
    pub supports: Supports,
}

/// The payload of one listing response: a batch of records.
#[derive(Clone, Debug, PartialEq)]
pub struct Response {
    pub data: Vec<Proxy>,
}

/// Whether a country list selects or excludes the named countries.
#[derive(Clone, Copy, Debug, PartialEq, Eq)]
enum Action {
    Allow,
    Block,
}

/// A country filter: either only the listed countries, or all but them,
/// already joined into the comma-separated form the listing service takes.
#[derive(Clone, Debug, PartialEq)]
pub enum Countries {
    AllowList(String),
    BlockList(String),
}

/// The views of a list of code strings.
pub open spec fn code_views(codes: Seq<String>) -> Seq<Seq<char>> {
    codes.map_values(|s: String| s@)
}

/// The comma-separated join of `codes`: empty for no codes, and one comma
/// between each adjacent pair otherwise.
pub open spec fn joined_codes(codes: Seq<Seq<char>>) -> Seq<char>
    decreases codes.len(),
{
    if codes.len() == 0 {
        Seq::empty()
    } else if codes.len() == 1 {
        codes[0]
    } else {
        joined_codes(codes.drop_last()) + seq![','] + codes.last()
    }
}

/// Extending the joined prefix by one code appends a comma (except at the
/// front) and then the code.
proof fn lemma_joined_codes_step(codes: Seq<Seq<char>>, i: int)
    requires
        0 <= i < codes.len(),
    ensures
        i == 0 ==> joined_codes(codes.take(1)) == codes[0],
        i > 0 ==> joined_codes(codes.take(i + 1)) == joined_codes(codes.take(i)) + seq![',']
            + codes[i],
{
    if i == 0 {
        assert(joined_codes(codes.take(1)) == codes.take(1)[0]);
    } else {
        assert(codes.take(i + 1).drop_last() =~= codes.take(i));
        assert(codes.take(i + 1).last() == codes[i]);
    }
}

/// Joins country codes with commas; the string the listing service expects.
fn join_codes(list: &Vec<String>) -> (r: String)
    ensures
        r@ == joined_codes(code_views(list@)),
{
    let ghost views = code_views(list@);
    let mut out = String::new();
    let mut i: usize = 0;
    while i < list.len()
        invariant
            0 <= i <= list.len(),
            views == code_views(list@),
            out@ == joined_codes(views.take(i as int)),
        decreases list.len() - i,
    {
        if i > 0 {
            out.append(",");
            proof {
                reveal_strlit(",");
                assert(","@ =~= seq![',']);
            }
        }
        out.append(list[i].as_str());
        proof {
            lemma_joined_codes_step(views, i as int);
        }
        i += 1;
    }
    proof {
        assert(views.take(list@.len() as int) =~= views);
    }
    out
}

impl Countries {
    /// The joined code string this filter carries, whichever way it selects.
    pub open spec fn spec_list(&self) -> Seq<char> {
        match self {
            Countries::AllowList(s) => s@,
            Countries::BlockList(s) => s@,
        }
    }

    /// Whether this filter selects (rather than excludes) its countries.
    pub open spec fn spec_is_allow(&self) -> bool {
        self is AllowList
    }

    /// Starts a filter that keeps only the countries added to it.
    pub fn allow() -> (r: CountriesBuilder)
        ensures
            r.spec_codes() == Seq::<Seq<char>>::empty(),
            r.spec_is_allow(),
    {
        CountriesBuilder::new(Action::Allow)
    }

    /// Starts a filter that excludes the countries added to it.
    pub fn block() -> (r: CountriesBuilder)
        ensures
            r.spec_codes() == Seq::<Seq<char>>::empty(),
            !r.spec_is_allow(),
    {
        CountriesBuilder::new(Action::Block)
    }

    /// A filter keeping only `codes`, joined in the given order.
    pub fn allowlist(codes: &Vec<String>) -> (r: Self)
        ensures
            r.spec_is_allow(),
            r.spec_list() == joined_codes(code_views(codes@)),
    {
        proof {
            assert(Seq::<Seq<char>>::empty() + code_views(codes@) =~= code_views(codes@));
        }
        Self::allow().countries(codes).build()
    }

    /// A filter excluding exactly `codes`, joined in the given order.
    pub fn blocklist(codes: &Vec<String>) -> (r: Self)
        ensures
            !r.spec_is_allow(),
            r.spec_list() == joined_codes(code_views(codes@)),
    {
        proof {
            assert(Seq::<Seq<char>>::empty() + code_views(codes@) =~= code_views(codes@));
        }
        Self::block().countries(codes).build()
    }

    /// True exactly when no country has been named.
    pub fn is_empty(&self) -> (r: bool)
        ensures
            r == (self.spec_list().len() == 0),
    {
        match self {
            Countries::AllowList(s) => s.as_str().is_empty(),
            Countries::BlockList(s) => s.as_str().is_empty(),
        }
    }
}

impl Default for Countries {
    /// Blocks nothing: an empty exclusion list.
    fn default() -> (r: Self)
        ensures
            !r.spec_is_allow(),
            r.spec_list() == Seq::<char>::empty(),
    {
        Countries::BlockList(String::new())
    }
}

/// Accumulates country codes before they are joined into a [`Countries`]
/// filter.
#[derive(Clone, Debug, PartialEq)]
pub struct CountriesBuilder {
    list: Vec<String>,
    action: Action,
}

impl CountriesBuilder {
    /// The code views collected so far, in insertion order.
    pub closed spec fn spec_codes(&self) -> Seq<Seq<char>> {
        code_views(self.list@)
    }

    /// Whether the built filter will select (rather than exclude).
    pub closed spec fn spec_is_allow(&self) -> bool {
        self.action is Allow
    }

    fn new(action: Action) -> (r: Self)
        ensures
            r.spec_codes() == Seq::<Seq<char>>::empty(),
            r.spec_is_allow() == (action is Allow),
    {
        proof {
            assert(code_views(Seq::<String>::empty()) =~= Seq::<Seq<char>>::empty());
        }
        CountriesBuilder { list: Vec::new(), action }
    }

    /// Adds one country code to the list.
    pub fn country(self, code: String) -> (r: Self)
        ensures
            r.spec_codes() == self.spec_codes().push(code@),
            r.spec_is_allow() == self.spec_is_allow(),
    {
        let mut list = self.list;
        proof {
            assert(code_views(list@.push(code)) =~= code_views(list@).push(code@));
        }
        list.push(code);
        CountriesBuilder { list, action: self.action }
    }

    /// Adds every code in `codes`, in order.
    pub fn countries(self, codes: &Vec<String>) -> (r: Self)
        ensures
            r.spec_codes() == self.spec_codes() + code_views(codes@),
            r.spec_is_allow() == self.spec_is_allow(),
    {
        let ghost orig = self;
        let mut built = self;
        let mut i: usize = 0;
        while i < codes.len()
            invariant
                0 <= i <= codes.len(),
                built.spec_codes() == orig.spec_codes() + code_views(codes@).take(i as int),
                built.spec_is_allow() == orig.spec_is_allow(),
            decreases codes.len() - i,
        {
            let code = String::from_str(codes[i].as_str());
            proof {
                assert((orig.spec_codes() + code_views(codes@).take(i as int)).push(code@)
                    =~= orig.spec_codes() + code_views(codes@).take(i + 1));
            }
            built = built.country(code);
            i += 1;
        }
        proof {
            assert(code_views(codes@).take(codes@.len() as int) =~= code_views(codes@));
        }
        built
    }

    /// Joins the collected codes and wraps them in the chosen direction.
    pub fn build(self) -> (r: Countries)
        ensures
            r.spec_is_allow() == self.spec_is_allow(),
            r.spec_list() == joined_codes(self.spec_codes()),
    {
        let joined = join_codes(&self.list);
        match self.action {
            Action::Allow => Countries::AllowList(joined),
            Action::Block => Countries::BlockList(joined),
        }
    }
}

impl Default for CountriesBuilder {
    /// An empty exclusion list, matching the default filter.
    fn default() -> (r: Self)
        ensures
            r.spec_codes() == Seq::<Seq<char>>::empty(),
            !r.spec_is_allow(),
    {
        Self::new(Action::Block)
    }
}

} // verus!
