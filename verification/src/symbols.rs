//! Mapping of stored trading symbols such as "SOLUSDT" to Drift perpetual markets.
use vstd::prelude::*;
use vstd::string::*;
use crate::markets::{PerpMarket, market_name};

verus! {

/// What `str::to_uppercase` returns for a string with these characters.
pub uninterp spec fn unicode_uppercase(s: Seq<char>) -> Seq<char>;

/// Every character is ASCII.
pub open spec fn all_ascii(s: Seq<char>) -> bool {
    forall|i: int| 0 <= i < s.len() ==> (#[trigger] s[i] as u32) < 128
}

/// The ASCII upper-case of one character: 'a'..='z' become 'A'..='Z', others stay.
pub open spec fn ascii_upper_char(c: char) -> char {
    if 'a' <= c && c <= 'z' {
        ((c as u32) - 32) as char
    } else {
        c
    }
}

/// The ASCII upper-case of a string, character by character.
pub open spec fn ascii_upper(s: Seq<char>) -> Seq<char> {
    s.map_values(|c: char| ascii_upper_char(c))
}

/// `s` ends with `suffix`.
pub open spec fn has_suffix(s: Seq<char>, suffix: Seq<char>) -> bool {
    suffix.len() <= s.len() && s.subrange(s.len() - suffix.len(), s.len() as int) == suffix
}

/// `s` without its last `n` characters.
pub open spec fn drop_last_n(s: Seq<char>, n: nat) -> Seq<char> {
    s.subrange(0, s.len() - n)
}

/// The base asset of an upper-case symbol: the first of the quote suffixes "USDT", "USD"
/// and "PERP" that the symbol ends with is removed; a symbol with none of them is its own base.
pub open spec fn strip_quote_suffix(s: Seq<char>) -> Seq<char> {
    if has_suffix(s, "USDT"@) {
        drop_last_n(s, "USDT"@.len())
    } else if has_suffix(s, "USD"@) {
        drop_last_n(s, "USD"@.len())
    } else if has_suffix(s, "PERP"@) {
        drop_last_n(s, "PERP"@.len())
    } else {
        s
    }
}

/// The market traded for a base asset, for the bases that strategies may use.
pub open spec fn market_for_base(b: Seq<char>) -> Option<PerpMarket> {
    if b == "SOL"@ {
        Some(PerpMarket::SOL)
    } else if b == "BTC"@ {
        Some(PerpMarket::BTC)
    } else if b == "ETH"@ {
        Some(PerpMarket::ETH)
    } else if b == "APT"@ {
        Some(PerpMarket::APT)
    } else if b == "BONK"@ {
        Some(PerpMarket::BONK)
    } else if b == "DOGE"@ {
        Some(PerpMarket::DOGE)
    } else if b == "BNB"@ {
        Some(PerpMarket::BNB)
    } else if b == "SUI"@ {
        Some(PerpMarket::SUI)
    } else if b == "PEPE"@ {
        Some(PerpMarket::PEPE)
    } else if b == "XRP"@ {
        Some(PerpMarket::XRP)
    } else if b == "LINK"@ {
        Some(PerpMarket::LINK)
    } else if b == "AVAX"@ {
        Some(PerpMarket::AVAX)
    } else if b == "ARB"@ {
        Some(PerpMarket::ARB)
    } else if b == "OP"@ {
        Some(PerpMarket::OP)
    } else if b == "SEI"@ {
        Some(PerpMarket::SEI)
    } else if b == "INJ"@ {
        Some(PerpMarket::INJ)
    } else if b == "RENDER"@ {
        Some(PerpMarket::RENDER)
    } else if b == "PYTH"@ {
        Some(PerpMarket::PYTH)
    } else if b == "TIA"@ {
        Some(PerpMarket::TIA)
    } else if b == "JTO"@ {
        Some(PerpMarket::JTO)
    } else {
        None
    }
}

/// The market of a symbol that is already in upper case.
pub open spec fn market_of_upper_symbol(upper: Seq<char>) -> Option<PerpMarket> {
    market_for_base(strip_quote_suffix(upper))
}

/// The market of a stored symbol, in any case.
pub open spec fn market_of_symbol(symbol: Seq<char>) -> Option<PerpMarket> {
    market_of_upper_symbol(unicode_uppercase(symbol))
}

/// Calls `str::to_uppercase`. Its result is named `unicode_uppercase` of the characters;
/// for a string of ASCII characters it is stated in full: each of 'a'..='z' becomes the
/// matching upper-case letter and every other character stays. What it does to other
/// characters (the Unicode case mapping, which may change the length) is left unsaid.
#[verifier::external_body]
fn to_uppercase(s: &str) -> (res: String)
    ensures
        res@ == unicode_uppercase(s@),
        all_ascii(s@) ==> res@ == ascii_upper(s@),
{
    s.to_uppercase()
}

/// The characters of a string, in order.
fn chars_of(s: &str) -> (v: Vec<char>)
    ensures
        v@ == s@,
{
    let n = s.unicode_len();
    let mut v: Vec<char> = Vec::new();
    let mut i: usize = 0;
    while i < n
        invariant
            i <= n,
            n == s@.len(),
            v@ == s@.subrange(0, i as int),
        decreases n - i,
    {
        let c = s.get_char(i);
        v.push(c);
        assert(v@ =~= s@.subrange(0, i + 1));
        i = i + 1;
    }
    assert(v@ =~= s@);
    v
}

/// Whether the characters `v[start..end]` spell `lit`.
fn range_equals(v: &Vec<char>, start: usize, end: usize, lit: &str) -> (r: bool)
    requires
        start <= end <= v@.len(),
    ensures
        r == (v@.subrange(start as int, end as int) == lit@),
{
    let n = lit.unicode_len();
    if end - start != n {
        assert(v@.subrange(start as int, end as int).len() != lit@.len());
        return false;
    }
    let mut i: usize = 0;
    while i < n
        invariant
            i <= n,
            n == lit@.len(),
            end - start == n,
            start <= end <= v@.len(),
            forall|j: int| 0 <= j < i ==> v@[start + j] == lit@[j],
        decreases n - i,
    {
        let c = lit.get_char(i);
        if v[start + i] != c {
            assert(v@.subrange(start as int, end as int)[i as int] != lit@[i as int]);
            return false;
        }
        i = i + 1;
    }
    assert(v@.subrange(start as int, end as int) =~= lit@);
    true
}

/// Whether `v` ends with `suffix`.
fn ends_with(v: &Vec<char>, suffix: &str) -> (r: bool)
    ensures
        r == has_suffix(v@, suffix@),
{
    let k = suffix.unicode_len();
    if k <= v.len() {
        range_equals(v, v.len() - k, v.len(), suffix)
    } else {
        false
    }
}

/// The market for the base asset `v[..len]`.
fn market_for_base_prefix(v: &Vec<char>, len: usize) -> (r: Option<PerpMarket>)
    requires
        len <= v@.len(),
    ensures
        r == market_for_base(v@.subrange(0, len as int)),
{
    if range_equals(v, 0, len, "SOL") {
        Some(PerpMarket::SOL)
    } else if range_equals(v, 0, len, "BTC") {
        Some(PerpMarket::BTC)
    } else if range_equals(v, 0, len, "ETH") {
        Some(PerpMarket::ETH)
    } else if range_equals(v, 0, len, "APT") {
        Some(PerpMarket::APT)
    } else if range_equals(v, 0, len, "BONK") {
        Some(PerpMarket::BONK)
    } else if range_equals(v, 0, len, "DOGE") {
        Some(PerpMarket::DOGE)
    } else if range_equals(v, 0, len, "BNB") {
        Some(PerpMarket::BNB)
    } else if range_equals(v, 0, len, "SUI") {
        Some(PerpMarket::SUI)
    } else if range_equals(v, 0, len, "PEPE") {
        Some(PerpMarket::PEPE)
    } else if range_equals(v, 0, len, "XRP") {
        Some(PerpMarket::XRP)
    } else if range_equals(v, 0, len, "LINK") {
        Some(PerpMarket::LINK)
    } else if range_equals(v, 0, len, "AVAX") {
        Some(PerpMarket::AVAX)
    } else if range_equals(v, 0, len, "ARB") {
        Some(PerpMarket::ARB)
    } else if range_equals(v, 0, len, "OP") {
        Some(PerpMarket::OP)
    } else if range_equals(v, 0, len, "SEI") {
        Some(PerpMarket::SEI)
    } else if range_equals(v, 0, len, "INJ") {
        Some(PerpMarket::INJ)
    } else if range_equals(v, 0, len, "RENDER") {
        Some(PerpMarket::RENDER)
    } else if range_equals(v, 0, len, "PYTH") {
        Some(PerpMarket::PYTH)
    } else if range_equals(v, 0, len, "TIA") {
        Some(PerpMarket::TIA)
    } else if range_equals(v, 0, len, "JTO") {
        Some(PerpMarket::JTO)
    } else {
        None
    }
}

/// The market of a symbol that is already in upper case: the quote suffix "USDT", "USD"
/// or "PERP" is stripped (the first that matches) and the base asset is looked up.
pub fn perp_market_from_upper(upper: &str) -> (r: Option<PerpMarket>)
    ensures
        r == market_of_upper_symbol(upper@),
{
    let v = chars_of(upper);
    let n = v.len();
    let base_len = if ends_with(&v, "USDT") {
        n - "USDT".unicode_len()
    } else if ends_with(&v, "USD") {
        n - "USD".unicode_len()
    } else if ends_with(&v, "PERP") {
        n - "PERP".unicode_len()
    } else {
        n
    };
    proof {
        assert(v@.subrange(0, n as int) =~= v@);
    }
    market_for_base_prefix(&v, base_len)
}

/// Maps a stored symbol (e.g. "SOLUSDT") to its perpetual market: the symbol is put in
/// upper case, a quote suffix is stripped, and the base asset is looked up. `None` when
/// the base is not one that strategies may trade.
pub fn symbol_to_perp_market(symbol: &str) -> (r: Option<PerpMarket>)
    ensures
        r == market_of_symbol(symbol@),
        all_ascii(symbol@) ==> r == market_of_upper_symbol(ascii_upper(symbol@)),
{
    let upper = to_uppercase(symbol);
    perp_market_from_upper(upper.as_str())
}

/// A quote suffix does not change the market: a base followed by "USDT", "USD" or "PERP"
/// names the same market as the base itself.
pub proof fn quote_suffix_is_ignored(base: Seq<char>)
    ensures
        market_of_upper_symbol(base + "USDT"@) == market_for_base(base),
        market_of_upper_symbol(base + "USD"@) == market_for_base(base),
        market_of_upper_symbol(base + "PERP"@) == market_for_base(base),
{
    reveal_strlit("USDT");
    reveal_strlit("USD");
    reveal_strlit("PERP");
    let s1 = base + "USDT"@;
    assert(s1.subrange(s1.len() - 4, s1.len() as int) =~= "USDT"@);
    assert(drop_last_n(s1, 4) =~= base);
    let s2 = base + "USD"@;
    assert(s2[s2.len() - 1] == 'D');
    assert(!has_suffix(s2, "USDT"@)) by {
        if has_suffix(s2, "USDT"@) {
            assert(s2.subrange(s2.len() - 4, s2.len() as int)[3] == 'T');
        }
    }
    assert(s2.subrange(s2.len() - 3, s2.len() as int) =~= "USD"@);
    assert(drop_last_n(s2, 3) =~= base);
    let s3 = base + "PERP"@;
    assert(!has_suffix(s3, "USDT"@)) by {
        if has_suffix(s3, "USDT"@) {
            assert(s3.subrange(s3.len() - 4, s3.len() as int)[3] == 'T');
        }
    }
    assert(!has_suffix(s3, "USD"@)) by {
        if has_suffix(s3, "USD"@) {
            assert(s3.subrange(s3.len() - 3, s3.len() as int)[2] == 'D');
        }
    }
    assert(s3.subrange(s3.len() - 4, s3.len() as int) =~= "PERP"@);
    assert(drop_last_n(s3, 4) =~= base);
}


/// The markets that strategies may trade: those whose name `market_for_base` knows.
pub open spec fn tradable(m: PerpMarket) -> bool {
    match m {
        PerpMarket::SOL => true,
        PerpMarket::BTC => true,
        PerpMarket::ETH => true,
        PerpMarket::APT => true,
        PerpMarket::BONK => true,
        PerpMarket::DOGE => true,
        PerpMarket::BNB => true,
        PerpMarket::SUI => true,
        PerpMarket::PEPE => true,
        PerpMarket::XRP => true,
        PerpMarket::LINK => true,
        PerpMarket::AVAX => true,
        PerpMarket::ARB => true,
        PerpMarket::OP => true,
        PerpMarket::SEI => true,
        PerpMarket::INJ => true,
        PerpMarket::RENDER => true,
        PerpMarket::PYTH => true,
        PerpMarket::TIA => true,
        PerpMarket::JTO => true,
        _ => false,
    }
}

/// Every tradable market is found again from its own name, with or without a quote
/// suffix; the name of any other market is not a known base.
pub proof fn market_names_round_trip(m: PerpMarket)
    ensures
        tradable(m) ==> market_for_base(market_name(m)) == Some(m),
        tradable(m) ==> market_of_upper_symbol(market_name(m) + "USDT"@) == Some(m),
        !tradable(m) ==> market_for_base(market_name(m)) is None,
{
    reveal_strlit("SOL");
    reveal_strlit("BTC");
    reveal_strlit("ETH");
    reveal_strlit("APT");
    reveal_strlit("BONK");
    reveal_strlit("POL");
    reveal_strlit("ARB");
    reveal_strlit("DOGE");
    reveal_strlit("BNB");
    reveal_strlit("SUI");
    reveal_strlit("PEPE");
    reveal_strlit("OP");
    reveal_strlit("RENDER");
    reveal_strlit("XRP");
    reveal_strlit("HNT");
    reveal_strlit("INJ");
    reveal_strlit("LINK");
    reveal_strlit("RLB");
    reveal_strlit("PYTH");
    reveal_strlit("TIA");
    reveal_strlit("JTO");
    reveal_strlit("SEI");
    reveal_strlit("AVAX");
    reveal_strlit("W");
    reveal_strlit("KMNO");
    reveal_strlit("WEN");
    reveal_strlit("TrumpWin2024");
    reveal_strlit("KamalaPopularVote2024");
    reveal_strlit("Random2024");
    reveal_strlit("NVDA");
    match m {
        PerpMarket::SOL => {

        },
        PerpMarket::BTC => {
            assert("SOL"@[0] != "BTC"@[0]);
        },
        PerpMarket::ETH => {
            assert("SOL"@[0] != "ETH"@[0]);
            assert("BTC"@[0] != "ETH"@[0]);
        },
        PerpMarket::APT => {
            assert("SOL"@[0] != "APT"@[0]);
            assert("BTC"@[0] != "APT"@[0]);
            assert("ETH"@[0] != "APT"@[0]);
        },
        PerpMarket::BONK => {
            assert("SOL"@.len() != "BONK"@.len());
            assert("BTC"@.len() != "BONK"@.len());
            assert("ETH"@.len() != "BONK"@.len());
            assert("APT"@.len() != "BONK"@.len());
        },
        PerpMarket::POL => {
            assert("SOL"@[0] != "POL"@[0]);
            assert("BTC"@[0] != "POL"@[0]);
            assert("ETH"@[0] != "POL"@[0]);
            assert("APT"@[0] != "POL"@[0]);
            assert("BONK"@.len() != "POL"@.len());
            assert("DOGE"@.len() != "POL"@.len());
            assert("BNB"@[0] != "POL"@[0]);
            assert("SUI"@[0] != "POL"@[0]);
            assert("PEPE"@.len() != "POL"@.len());
            assert("XRP"@[0] != "POL"@[0]);
            assert("LINK"@.len() != "POL"@.len());
            assert("AVAX"@.len() != "POL"@.len());
            assert("ARB"@[0] != "POL"@[0]);
            assert("OP"@.len() != "POL"@.len());
            assert("SEI"@[0] != "POL"@[0]);
            assert("INJ"@[0] != "POL"@[0]);
            assert("RENDER"@.len() != "POL"@.len());
            assert("PYTH"@.len() != "POL"@.len());
            assert("TIA"@[0] != "POL"@[0]);
            assert("JTO"@[0] != "POL"@[0]);
        },
        PerpMarket::ARB => {
            assert("SOL"@[0] != "ARB"@[0]);
            assert("BTC"@[0] != "ARB"@[0]);
            assert("ETH"@[0] != "ARB"@[0]);
            assert("APT"@[1] != "ARB"@[1]);
            assert("BONK"@.len() != "ARB"@.len());
            assert("DOGE"@.len() != "ARB"@.len());
            assert("BNB"@[0] != "ARB"@[0]);
            assert("SUI"@[0] != "ARB"@[0]);
            assert("PEPE"@.len() != "ARB"@.len());
            assert("XRP"@[0] != "ARB"@[0]);
            assert("LINK"@.len() != "ARB"@.len());
            assert("AVAX"@.len() != "ARB"@.len());
        },
        PerpMarket::DOGE => {
            assert("SOL"@.len() != "DOGE"@.len());
            assert("BTC"@.len() != "DOGE"@.len());
            assert("ETH"@.len() != "DOGE"@.len());
            assert("APT"@.len() != "DOGE"@.len());
            assert("BONK"@[0] != "DOGE"@[0]);
        },
        PerpMarket::BNB => {
            assert("SOL"@[0] != "BNB"@[0]);
            assert("BTC"@[1] != "BNB"@[1]);
            assert("ETH"@[0] != "BNB"@[0]);
            assert("APT"@[0] != "BNB"@[0]);
            assert("BONK"@.len() != "BNB"@.len());
            assert("DOGE"@.len() != "BNB"@.len());
        },
        PerpMarket::SUI => {
            assert("SOL"@[1] != "SUI"@[1]);
            assert("BTC"@[0] != "SUI"@[0]);
            assert("ETH"@[0] != "SUI"@[0]);
            assert("APT"@[0] != "SUI"@[0]);
            assert("BONK"@.len() != "SUI"@.len());
            assert("DOGE"@.len() != "SUI"@.len());
            assert("BNB"@[0] != "SUI"@[0]);
        },
        PerpMarket::PEPE => {
            assert("SOL"@.len() != "PEPE"@.len());
            assert("BTC"@.len() != "PEPE"@.len());
            assert("ETH"@.len() != "PEPE"@.len());
            assert("APT"@.len() != "PEPE"@.len());
            assert("BONK"@[0] != "PEPE"@[0]);
            assert("DOGE"@[0] != "PEPE"@[0]);
            assert("BNB"@.len() != "PEPE"@.len());
            assert("SUI"@.len() != "PEPE"@.len());
        },
        PerpMarket::OP => {
            assert("SOL"@.len() != "OP"@.len());
            assert("BTC"@.len() != "OP"@.len());
            assert("ETH"@.len() != "OP"@.len());
            assert("APT"@.len() != "OP"@.len());
            assert("BONK"@.len() != "OP"@.len());
            assert("DOGE"@.len() != "OP"@.len());
            assert("BNB"@.len() != "OP"@.len());
            assert("SUI"@.len() != "OP"@.len());
            assert("PEPE"@.len() != "OP"@.len());
            assert("XRP"@.len() != "OP"@.len());
            assert("LINK"@.len() != "OP"@.len());
            assert("AVAX"@.len() != "OP"@.len());
            assert("ARB"@.len() != "OP"@.len());
        },
        PerpMarket::RENDER => {
            assert("SOL"@.len() != "RENDER"@.len());
            assert("BTC"@.len() != "RENDER"@.len());
            assert("ETH"@.len() != "RENDER"@.len());
            assert("APT"@.len() != "RENDER"@.len());
            assert("BONK"@.len() != "RENDER"@.len());
            assert("DOGE"@.len() != "RENDER"@.len());
            assert("BNB"@.len() != "RENDER"@.len());
            assert("SUI"@.len() != "RENDER"@.len());
            assert("PEPE"@.len() != "RENDER"@.len());
            assert("XRP"@.len() != "RENDER"@.len());
            assert("LINK"@.len() != "RENDER"@.len());
            assert("AVAX"@.len() != "RENDER"@.len());
            assert("ARB"@.len() != "RENDER"@.len());
            assert("OP"@.len() != "RENDER"@.len());
            assert("SEI"@.len() != "RENDER"@.len());
            assert("INJ"@.len() != "RENDER"@.len());
        },
        PerpMarket::XRP => {
            assert("SOL"@[0] != "XRP"@[0]);
            assert("BTC"@[0] != "XRP"@[0]);
            assert("ETH"@[0] != "XRP"@[0]);
            assert("APT"@[0] != "XRP"@[0]);
            assert("BONK"@.len() != "XRP"@.len());
            assert("DOGE"@.len() != "XRP"@.len());
            assert("BNB"@[0] != "XRP"@[0]);
            assert("SUI"@[0] != "XRP"@[0]);
            assert("PEPE"@.len() != "XRP"@.len());
        },
        PerpMarket::HNT => {
            assert("SOL"@[0] != "HNT"@[0]);
            assert("BTC"@[0] != "HNT"@[0]);
            assert("ETH"@[0] != "HNT"@[0]);
            assert("APT"@[0] != "HNT"@[0]);
            assert("BONK"@.len() != "HNT"@.len());
            assert("DOGE"@.len() != "HNT"@.len());
            assert("BNB"@[0] != "HNT"@[0]);
            assert("SUI"@[0] != "HNT"@[0]);
            assert("PEPE"@.len() != "HNT"@.len());
            assert("XRP"@[0] != "HNT"@[0]);
            assert("LINK"@.len() != "HNT"@.len());
            assert("AVAX"@.len() != "HNT"@.len());
            assert("ARB"@[0] != "HNT"@[0]);
            assert("OP"@.len() != "HNT"@.len());
            assert("SEI"@[0] != "HNT"@[0]);
            assert("INJ"@[0] != "HNT"@[0]);
            assert("RENDER"@.len() != "HNT"@.len());
            assert("PYTH"@.len() != "HNT"@.len());
            assert("TIA"@[0] != "HNT"@[0]);
            assert("JTO"@[0] != "HNT"@[0]);
        },
        PerpMarket::INJ => {
            assert("SOL"@[0] != "INJ"@[0]);
            assert("BTC"@[0] != "INJ"@[0]);
            assert("ETH"@[0] != "INJ"@[0]);
            assert("APT"@[0] != "INJ"@[0]);
            assert("BONK"@.len() != "INJ"@.len());
            assert("DOGE"@.len() != "INJ"@.len());
            assert("BNB"@[0] != "INJ"@[0]);
            assert("SUI"@[0] != "INJ"@[0]);
            assert("PEPE"@.len() != "INJ"@.len());
            assert("XRP"@[0] != "INJ"@[0]);
            assert("LINK"@.len() != "INJ"@.len());
            assert("AVAX"@.len() != "INJ"@.len());
            assert("ARB"@[0] != "INJ"@[0]);
            assert("OP"@.len() != "INJ"@.len());
            assert("SEI"@[0] != "INJ"@[0]);
        },
        PerpMarket::LINK => {
            assert("SOL"@.len() != "LINK"@.len());
            assert("BTC"@.len() != "LINK"@.len());
            assert("ETH"@.len() != "LINK"@.len());
            assert("APT"@.len() != "LINK"@.len());
            assert("BONK"@[0] != "LINK"@[0]);
            assert("DOGE"@[0] != "LINK"@[0]);
            assert("BNB"@.len() != "LINK"@.len());
            assert("SUI"@.len() != "LINK"@.len());
            assert("PEPE"@[0] != "LINK"@[0]);
            assert("XRP"@.len() != "LINK"@.len());
        },
        PerpMarket::RLB => {
            assert("SOL"@[0] != "RLB"@[0]);
            assert("BTC"@[0] != "RLB"@[0]);
            assert("ETH"@[0] != "RLB"@[0]);
            assert("APT"@[0] != "RLB"@[0]);
            assert("BONK"@.len() != "RLB"@.len());
            assert("DOGE"@.len() != "RLB"@.len());
            assert("BNB"@[0] != "RLB"@[0]);
            assert("SUI"@[0] != "RLB"@[0]);
            assert("PEPE"@.len() != "RLB"@.len());
            assert("XRP"@[0] != "RLB"@[0]);
            assert("LINK"@.len() != "RLB"@.len());
            assert("AVAX"@.len() != "RLB"@.len());
            assert("ARB"@[0] != "RLB"@[0]);
            assert("OP"@.len() != "RLB"@.len());
            assert("SEI"@[0] != "RLB"@[0]);
            assert("INJ"@[0] != "RLB"@[0]);
            assert("RENDER"@.len() != "RLB"@.len());
            assert("PYTH"@.len() != "RLB"@.len());
            assert("TIA"@[0] != "RLB"@[0]);
            assert("JTO"@[0] != "RLB"@[0]);
        },
        PerpMarket::PYTH => {
            assert("SOL"@.len() != "PYTH"@.len());
            assert("BTC"@.len() != "PYTH"@.len());
            assert("ETH"@.len() != "PYTH"@.len());
            assert("APT"@.len() != "PYTH"@.len());
            assert("BONK"@[0] != "PYTH"@[0]);
            assert("DOGE"@[0] != "PYTH"@[0]);
            assert("BNB"@.len() != "PYTH"@.len());
            assert("SUI"@.len() != "PYTH"@.len());
            assert("PEPE"@[1] != "PYTH"@[1]);
            assert("XRP"@.len() != "PYTH"@.len());
            assert("LINK"@[0] != "PYTH"@[0]);
            assert("AVAX"@[0] != "PYTH"@[0]);
            assert("ARB"@.len() != "PYTH"@.len());
            assert("OP"@.len() != "PYTH"@.len());
            assert("SEI"@.len() != "PYTH"@.len());
            assert("INJ"@.len() != "PYTH"@.len());
            assert("RENDER"@.len() != "PYTH"@.len());
        },
        PerpMarket::TIA => {
            assert("SOL"@[0] != "TIA"@[0]);
            assert("BTC"@[0] != "TIA"@[0]);
            assert("ETH"@[0] != "TIA"@[0]);
            assert("APT"@[0] != "TIA"@[0]);
            assert("BONK"@.len() != "TIA"@.len());
            assert("DOGE"@.len() != "TIA"@.len());
            assert("BNB"@[0] != "TIA"@[0]);
            assert("SUI"@[0] != "TIA"@[0]);
            assert("PEPE"@.len() != "TIA"@.len());
            assert("XRP"@[0] != "TIA"@[0]);
            assert("LINK"@.len() != "TIA"@.len());
            assert("AVAX"@.len() != "TIA"@.len());
            assert("ARB"@[0] != "TIA"@[0]);
            assert("OP"@.len() != "TIA"@.len());
            assert("SEI"@[0] != "TIA"@[0]);
            assert("INJ"@[0] != "TIA"@[0]);
            assert("RENDER"@.len() != "TIA"@.len());
            assert("PYTH"@.len() != "TIA"@.len());
        },
        PerpMarket::JTO => {
            assert("SOL"@[0] != "JTO"@[0]);
            assert("BTC"@[0] != "JTO"@[0]);
            assert("ETH"@[0] != "JTO"@[0]);
            assert("APT"@[0] != "JTO"@[0]);
            assert("BONK"@.len() != "JTO"@.len());
            assert("DOGE"@.len() != "JTO"@.len());
            assert("BNB"@[0] != "JTO"@[0]);
            assert("SUI"@[0] != "JTO"@[0]);
            assert("PEPE"@.len() != "JTO"@.len());
            assert("XRP"@[0] != "JTO"@[0]);
            assert("LINK"@.len() != "JTO"@.len());
            assert("AVAX"@.len() != "JTO"@.len());
            assert("ARB"@[0] != "JTO"@[0]);
            assert("OP"@.len() != "JTO"@.len());
            assert("SEI"@[0] != "JTO"@[0]);
            assert("INJ"@[0] != "JTO"@[0]);
            assert("RENDER"@.len() != "JTO"@.len());
            assert("PYTH"@.len() != "JTO"@.len());
            assert("TIA"@[0] != "JTO"@[0]);
        },
        PerpMarket::SEI => {
            assert("SOL"@[1] != "SEI"@[1]);
            assert("BTC"@[0] != "SEI"@[0]);
            assert("ETH"@[0] != "SEI"@[0]);
            assert("APT"@[0] != "SEI"@[0]);
            assert("BONK"@.len() != "SEI"@.len());
            assert("DOGE"@.len() != "SEI"@.len());
            assert("BNB"@[0] != "SEI"@[0]);
            assert("SUI"@[1] != "SEI"@[1]);
            assert("PEPE"@.len() != "SEI"@.len());
            assert("XRP"@[0] != "SEI"@[0]);
            assert("LINK"@.len() != "SEI"@.len());
            assert("AVAX"@.len() != "SEI"@.len());
            assert("ARB"@[0] != "SEI"@[0]);
            assert("OP"@.len() != "SEI"@.len());
        },
        PerpMarket::AVAX => {
            assert("SOL"@.len() != "AVAX"@.len());
            assert("BTC"@.len() != "AVAX"@.len());
            assert("ETH"@.len() != "AVAX"@.len());
            assert("APT"@.len() != "AVAX"@.len());
            assert("BONK"@[0] != "AVAX"@[0]);
            assert("DOGE"@[0] != "AVAX"@[0]);
            assert("BNB"@.len() != "AVAX"@.len());
            assert("SUI"@.len() != "AVAX"@.len());
            assert("PEPE"@[0] != "AVAX"@[0]);
            assert("XRP"@.len() != "AVAX"@.len());
            assert("LINK"@[0] != "AVAX"@[0]);
        },
        PerpMarket::W => {
            assert("SOL"@.len() != "W"@.len());
            assert("BTC"@.len() != "W"@.len());
            assert("ETH"@.len() != "W"@.len());
            assert("APT"@.len() != "W"@.len());
            assert("BONK"@.len() != "W"@.len());
            assert("DOGE"@.len() != "W"@.len());
            assert("BNB"@.len() != "W"@.len());
            assert("SUI"@.len() != "W"@.len());
            assert("PEPE"@.len() != "W"@.len());
            assert("XRP"@.len() != "W"@.len());
            assert("LINK"@.len() != "W"@.len());
            assert("AVAX"@.len() != "W"@.len());
            assert("ARB"@.len() != "W"@.len());
            assert("OP"@.len() != "W"@.len());
            assert("SEI"@.len() != "W"@.len());
            assert("INJ"@.len() != "W"@.len());
            assert("RENDER"@.len() != "W"@.len());
            assert("PYTH"@.len() != "W"@.len());
            assert("TIA"@.len() != "W"@.len());
            assert("JTO"@.len() != "W"@.len());
        },
        PerpMarket::KMNO => {
            assert("SOL"@.len() != "KMNO"@.len());
            assert("BTC"@.len() != "KMNO"@.len());
            assert("ETH"@.len() != "KMNO"@.len());
            assert("APT"@.len() != "KMNO"@.len());
            assert("BONK"@[0] != "KMNO"@[0]);
            assert("DOGE"@[0] != "KMNO"@[0]);
            assert("BNB"@.len() != "KMNO"@.len());
            assert("SUI"@.len() != "KMNO"@.len());
            assert("PEPE"@[0] != "KMNO"@[0]);
            assert("XRP"@.len() != "KMNO"@.len());
            assert("LINK"@[0] != "KMNO"@[0]);
            assert("AVAX"@[0] != "KMNO"@[0]);
            assert("ARB"@.len() != "KMNO"@.len());
            assert("OP"@.len() != "KMNO"@.len());
            assert("SEI"@.len() != "KMNO"@.len());
            assert("INJ"@.len() != "KMNO"@.len());
            assert("RENDER"@.len() != "KMNO"@.len());
            assert("PYTH"@[0] != "KMNO"@[0]);
            assert("TIA"@.len() != "KMNO"@.len());
            assert("JTO"@.len() != "KMNO"@.len());
        },
        PerpMarket::WEN => {
            assert("SOL"@[0] != "WEN"@[0]);
            assert("BTC"@[0] != "WEN"@[0]);
            assert("ETH"@[0] != "WEN"@[0]);
            assert("APT"@[0] != "WEN"@[0]);
            assert("BONK"@.len() != "WEN"@.len());
            assert("DOGE"@.len() != "WEN"@.len());
            assert("BNB"@[0] != "WEN"@[0]);
            assert("SUI"@[0] != "WEN"@[0]);
            assert("PEPE"@.len() != "WEN"@.len());
            assert("XRP"@[0] != "WEN"@[0]);
            assert("LINK"@.len() != "WEN"@.len());
            assert("AVAX"@.len() != "WEN"@.len());
            assert("ARB"@[0] != "WEN"@[0]);
            assert("OP"@.len() != "WEN"@.len());
            assert("SEI"@[0] != "WEN"@[0]);
            assert("INJ"@[0] != "WEN"@[0]);
            assert("RENDER"@.len() != "WEN"@.len());
            assert("PYTH"@.len() != "WEN"@.len());
            assert("TIA"@[0] != "WEN"@[0]);
            assert("JTO"@[0] != "WEN"@[0]);
        },
        PerpMarket::TrumpWin2024 => {
            assert("SOL"@.len() != "TrumpWin2024"@.len());
            assert("BTC"@.len() != "TrumpWin2024"@.len());
            assert("ETH"@.len() != "TrumpWin2024"@.len());
            assert("APT"@.len() != "TrumpWin2024"@.len());
            assert("BONK"@.len() != "TrumpWin2024"@.len());
            assert("DOGE"@.len() != "TrumpWin2024"@.len());
            assert("BNB"@.len() != "TrumpWin2024"@.len());
            assert("SUI"@.len() != "TrumpWin2024"@.len());
            assert("PEPE"@.len() != "TrumpWin2024"@.len());
            assert("XRP"@.len() != "TrumpWin2024"@.len());
            assert("LINK"@.len() != "TrumpWin2024"@.len());
            assert("AVAX"@.len() != "TrumpWin2024"@.len());
            assert("ARB"@.len() != "TrumpWin2024"@.len());
            assert("OP"@.len() != "TrumpWin2024"@.len());
            assert("SEI"@.len() != "TrumpWin2024"@.len());
            assert("INJ"@.len() != "TrumpWin2024"@.len());
            assert("RENDER"@.len() != "TrumpWin2024"@.len());
            assert("PYTH"@.len() != "TrumpWin2024"@.len());
            assert("TIA"@.len() != "TrumpWin2024"@.len());
            assert("JTO"@.len() != "TrumpWin2024"@.len());
        },
        PerpMarket::KamalaPopularVote2024 => {
            assert("SOL"@.len() != "KamalaPopularVote2024"@.len());
            assert("BTC"@.len() != "KamalaPopularVote2024"@.len());
            assert("ETH"@.len() != "KamalaPopularVote2024"@.len());
            assert("APT"@.len() != "KamalaPopularVote2024"@.len());
            assert("BONK"@.len() != "KamalaPopularVote2024"@.len());
            assert("DOGE"@.len() != "KamalaPopularVote2024"@.len());
            assert("BNB"@.len() != "KamalaPopularVote2024"@.len());
            assert("SUI"@.len() != "KamalaPopularVote2024"@.len());
            assert("PEPE"@.len() != "KamalaPopularVote2024"@.len());
            assert("XRP"@.len() != "KamalaPopularVote2024"@.len());
            assert("LINK"@.len() != "KamalaPopularVote2024"@.len());
            assert("AVAX"@.len() != "KamalaPopularVote2024"@.len());
            assert("ARB"@.len() != "KamalaPopularVote2024"@.len());
            assert("OP"@.len() != "KamalaPopularVote2024"@.len());
            assert("SEI"@.len() != "KamalaPopularVote2024"@.len());
            assert("INJ"@.len() != "KamalaPopularVote2024"@.len());
            assert("RENDER"@.len() != "KamalaPopularVote2024"@.len());
            assert("PYTH"@.len() != "KamalaPopularVote2024"@.len());
            assert("TIA"@.len() != "KamalaPopularVote2024"@.len());
            assert("JTO"@.len() != "KamalaPopularVote2024"@.len());
        },
        PerpMarket::Random2024 => {
            assert("SOL"@.len() != "Random2024"@.len());
            assert("BTC"@.len() != "Random2024"@.len());
            assert("ETH"@.len() != "Random2024"@.len());
            assert("APT"@.len() != "Random2024"@.len());
            assert("BONK"@.len() != "Random2024"@.len());
            assert("DOGE"@.len() != "Random2024"@.len());
            assert("BNB"@.len() != "Random2024"@.len());
            assert("SUI"@.len() != "Random2024"@.len());
            assert("PEPE"@.len() != "Random2024"@.len());
            assert("XRP"@.len() != "Random2024"@.len());
            assert("LINK"@.len() != "Random2024"@.len());
            assert("AVAX"@.len() != "Random2024"@.len());
            assert("ARB"@.len() != "Random2024"@.len());
            assert("OP"@.len() != "Random2024"@.len());
            assert("SEI"@.len() != "Random2024"@.len());
            assert("INJ"@.len() != "Random2024"@.len());
            assert("RENDER"@.len() != "Random2024"@.len());
            assert("PYTH"@.len() != "Random2024"@.len());
            assert("TIA"@.len() != "Random2024"@.len());
            assert("JTO"@.len() != "Random2024"@.len());
        },
        PerpMarket::NVDA => {
            assert("SOL"@.len() != "NVDA"@.len());
            assert("BTC"@.len() != "NVDA"@.len());
            assert("ETH"@.len() != "NVDA"@.len());
            assert("APT"@.len() != "NVDA"@.len());
            assert("BONK"@[0] != "NVDA"@[0]);
            assert("DOGE"@[0] != "NVDA"@[0]);
            assert("BNB"@.len() != "NVDA"@.len());
            assert("SUI"@.len() != "NVDA"@.len());
            assert("PEPE"@[0] != "NVDA"@[0]);
            assert("XRP"@.len() != "NVDA"@.len());
            assert("LINK"@[0] != "NVDA"@[0]);
            assert("AVAX"@[0] != "NVDA"@[0]);
            assert("ARB"@.len() != "NVDA"@.len());
            assert("OP"@.len() != "NVDA"@.len());
            assert("SEI"@.len() != "NVDA"@.len());
            assert("INJ"@.len() != "NVDA"@.len());
            assert("RENDER"@.len() != "NVDA"@.len());
            assert("PYTH"@[0] != "NVDA"@[0]);
            assert("TIA"@.len() != "NVDA"@.len());
            assert("JTO"@.len() != "NVDA"@.len());
        },
    }
    quote_suffix_is_ignored(market_name(m));
}

} // verus!
