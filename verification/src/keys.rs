//! Cache-key derivation: a canonical string key for a request's
//! (url, width?, height?, format?) tuple.
use vstd::prelude::*;

verus! {

/// The closed set of target encodings a client may request.
#[derive(Clone, Copy, Debug, PartialEq, Eq, Structural)]
pub enum Format {
    Avif,
    Png,
    Webp,
}

impl Format {
    /// Canonical lowercase name, as it appears inside cache keys.
    pub open spec fn spec_name(self) -> Seq<char> {
        match self {
            Format::Avif => "avif"@,
            Format::Png => "png"@,
            Format::Webp => "webp"@,
        }
    }

    /// Returns the canonical lowercase name of this format.
    pub fn name(&self) -> (r: &'static str)
        ensures
            r@ == self.spec_name(),
    {
        match self {
            Format::Avif => "avif",
            Format::Png => "png",
            Format::Webp => "webp",
        }
    }

    /// The fixed MIME content type of this format.
    pub open spec fn spec_content_type(self) -> Seq<char> {
        match self {
            Format::Avif => "image/avif"@,
            Format::Png => "image/png"@,
            Format::Webp => "image/webp"@,
        }
    }

    /// Returns the fixed MIME content type reported for this format.
    pub fn content_type(&self) -> (r: &'static str)
        ensures
            r@ == self.spec_content_type(),
    {
        match self {
            Format::Avif => "image/avif",
            Format::Webp => "image/webp",
            Format::Png => "image/png",
        }
    }
}

/// A requested target width in pixels.
#[derive(Clone, Copy, Debug, PartialEq, Eq)]
pub struct Width(pub u32);

/// A requested target height in pixels.
#[derive(Clone, Copy, Debug, PartialEq, Eq)]
pub struct Height(pub u32);

/// A requested resize target: either axis may be absent, in which case it is
/// computed from the other one preserving the source's aspect ratio. Both
/// absent means no resize was requested.
#[derive(Clone, Copy, Debug, PartialEq, Eq)]
pub struct Dimension(pub Option<Width>, pub Option<Height>);

/// The decimal digit characters of `n`, most significant first.
pub open spec fn dec_seq(n: nat) -> Seq<char>
    decreases n,
{
    if n < 10 {
        seq![digit_char(n)]
    } else {
        dec_seq(n / 10).push(digit_char(n % 10))
    }
}

/// The character for one decimal digit.
pub open spec fn digit_char(d: nat) -> char {
    if d == 0 {
        '0'
    } else if d == 1 {
        '1'
    } else if d == 2 {
        '2'
    } else if d == 3 {
        '3'
    } else if d == 4 {
        '4'
    } else if d == 5 {
        '5'
    } else if d == 6 {
        '6'
    } else if d == 7 {
        '7'
    } else if d == 8 {
        '8'
    } else {
        '9'
    }
}

fn digit_str(d: u32) -> (r: &'static str)
    requires
        d < 10,
    ensures
        r@ =~= seq![digit_char(d as nat)],
{
    proof {
        reveal_strlit("0");
        reveal_strlit("1");
        reveal_strlit("2");
        reveal_strlit("3");
        reveal_strlit("4");
        reveal_strlit("5");
        reveal_strlit("6");
        reveal_strlit("7");
        reveal_strlit("8");
        reveal_strlit("9");
    }
    if d == 0 {
        "0"
    } else if d == 1 {
        "1"
    } else if d == 2 {
        "2"
    } else if d == 3 {
        "3"
    } else if d == 4 {
        "4"
    } else if d == 5 {
        "5"
    } else if d == 6 {
        "6"
    } else if d == 7 {
        "7"
    } else if d == 8 {
        "8"
    } else {
        "9"
    }
}

/// Renders `n` as its decimal digit string.
pub fn render_u32(n: u32) -> (r: String)
    ensures
        r@ == dec_seq(n as nat),
    decreases n,
{
    if n < 10 {
        let r = String::from_str(digit_str(n));
        proof {
            assert(r@ =~= dec_seq(n as nat));
        }
        r
    } else {
        let mut s = render_u32(n / 10);
        s.append(digit_str(n % 10));
        proof {
            assert(s@ =~= dec_seq(n as nat));
        }
        s
    }
}

/// How an optional width renders inside a key: digits, or `original`.
pub open spec fn width_part(w: Option<Width>) -> Seq<char> {
    match w {
        Some(wd) => dec_seq(wd.0 as nat),
        None => "original"@,
    }
}

/// How an optional height renders inside a key: digits, or `original`.
pub open spec fn height_part(h: Option<Height>) -> Seq<char> {
    match h {
        Some(ht) => dec_seq(ht.0 as nat),
        None => "original"@,
    }
}

/// How an optional format renders inside a key: its name, or `original`.
pub open spec fn format_part(f: Option<Format>) -> Seq<char> {
    match f {
        Some(fm) => fm.spec_name(),
        None => "original"@,
    }
}

/// The canonical cache key of a request: the url and the three rendered
/// parts, joined by `_`. A pure function of its inputs, so identical
/// requests always map to the same cache entry.
pub open spec fn spec_key(url: Seq<char>, d: Dimension, f: Option<Format>) -> Seq<char> {
    url + "_"@ + width_part(d.0) + "_"@ + height_part(d.1) + "_"@ + format_part(f)
}

/// Key derivation is deterministic: it is a pure function of the request
/// tuple, with no hidden state, so two identical requests always yield the
/// identical key.
pub proof fn lemma_key_deterministic(
    url1: Seq<char>,
    d1: Dimension,
    f1: Option<Format>,
    url2: Seq<char>,
    d2: Dimension,
    f2: Option<Format>,
)
    requires
        url1 == url2,
        d1 == d2,
        f1 == f2,
    ensures
        spec_key(url1, d1, f1) == spec_key(url2, d2, f2),
{
}

/// Everything that identifies an image saved in the cache.
#[derive(Clone, Debug)]
pub struct Saved {
    pub url: String,
    pub dimensions: Dimension,
    pub format: Option<Format>,
}

impl Saved {
    /// The cache key this request maps to.
    pub open spec fn spec_key(&self) -> Seq<char> {
        spec_key(self.url@, self.dimensions, self.format)
    }

    /// Renders the cache key for this request.
    pub fn to_string(&self) -> (r: String)
        ensures
            r@ == self.spec_key(),
    {
        let mut s = self.url.clone();
        s.append("_");
        match self.dimensions.0 {
            Some(w) => {
                let ws = render_u32(w.0);
                s.append(ws.as_str());
            },
            None => {
                s.append("original");
            },
        }
        s.append("_");
        match self.dimensions.1 {
            Some(h) => {
                let hs = render_u32(h.0);
                s.append(hs.as_str());
            },
            None => {
                s.append("original");
            },
        }
        s.append("_");
        match self.format {
            Some(f) => {
                s.append(f.name());
            },
            None => {
                s.append("original");
            },
        }
        proof {
            assert(s@ =~= self.spec_key());
        }
        s
    }
}

/// Builds the `Saved` descriptor for a request.
pub fn get_saved_image(
    url: &str,
    width: Option<Width>,
    height: Option<Height>,
    format: Option<Format>,
) -> (r: Saved)
    ensures
        r.url@ == url@,
        r.dimensions == (Dimension(width, height)),
        r.format == format,
        r.spec_key() == spec_key(url@, Dimension(width, height), format),
{
    Saved { url: url.to_owned(), dimensions: Dimension(width, height), format }
}

} // verus!
