//! Image references as the OCI distribution crate parses them, and the
//! repository policy of this provider.

use oci_distribution::Reference;
use std::convert::TryFrom;
use vstd::prelude::*;
use vstd::string::*;

verus! {

/// The registry and repository prefix that every container image must have.
pub const IMAGE_REPO: &'static str = "docker.io/library";

/// An image reference split into its parts, as `oci_distribution::Reference` holds them.
pub struct ImageReference {
    pub registry: String,
    pub repository: String,
    pub tag: Option<String>,
    pub digest: Option<String>,
}

/// The mathematical value of an [`ImageReference`].
pub struct ImageReferenceView {
    pub registry: Seq<char>,
    pub repository: Seq<char>,
    pub tag: Option<Seq<char>>,
    pub digest: Option<Seq<char>>,
}

pub open spec fn opt_string_view(o: Option<String>) -> Option<Seq<char>> {
    match o {
        Some(s) => Some(s@),
        None => None,
    }
}

impl View for ImageReference {
    type V = ImageReferenceView;

    open spec fn view(&self) -> ImageReferenceView {
        ImageReferenceView {
            registry: self.registry@,
            repository: self.repository@,
            tag: opt_string_view(self.tag),
            digest: opt_string_view(self.digest),
        }
    }
}

/// `base`, then `sep` and `part` when `base` is not empty, else `part` alone.
pub open spec fn join_part(base: Seq<char>, sep: char, part: Seq<char>) -> Seq<char> {
    if base.len() == 0 {
        part
    } else {
        base + seq![sep] + part
    }
}

impl ImageReferenceView {
    /// The registry and the repository, joined by a slash when there is a registry.
    pub open spec fn full_name(self) -> Seq<char> {
        if self.registry.len() == 0 {
            self.repository
        } else {
            self.registry + seq!['/'] + self.repository
        }
    }

    /// The whole reference: full name, then `:tag`, then `@digest`.
    pub open spec fn whole(self) -> Seq<char> {
        let with_tag = match self.tag {
            Some(t) => join_part(self.full_name(), ':', t),
            None => self.full_name(),
        };
        match self.digest {
            Some(d) => join_part(with_tag, '@', d),
            None => with_tag,
        }
    }
}

/// What `Reference::try_from` makes of an image string: the parts of the
/// reference, or the text of the parse error.
pub uninterp spec fn reference_parse(image: Seq<char>) -> Result<ImageReferenceView, Seq<char>>;

/// Parses `image` with `oci_distribution::Reference::try_from` and takes the
/// parts out of the result; an error is kept as its display text.
/// The result is the named outcome of the parse of `image`. Two facts come from
/// the crate's source: an empty string is refused (`ParseError::NameEmpty`),
/// and a reference that parses gives back the input as its whole form (the
/// pattern is anchored at both ends and the crate's tests assert
/// `input == reference.whole()` for every accepted input).
#[verifier::external_body]
pub(crate) fn parse_reference(image: &str) -> (r: Result<ImageReference, String>)
    ensures
        match r {
            Ok(x) => reference_parse(image@) == Ok::<ImageReferenceView, Seq<char>>(x@),
            Err(m) => reference_parse(image@) == Err::<ImageReferenceView, Seq<char>>(m@),
        },
        image@.len() == 0 ==> r is Err,
        r is Ok ==> r->Ok_0@.whole() == image@,
{
    match Reference::try_from(image) {
        Ok(x) => Ok(ImageReference {
            registry: x.registry().to_string(),
            repository: x.repository().to_string(),
            tag: x.tag().map(|t| t.to_string()),
            digest: x.digest().map(|d| d.to_string()),
        }),
        Err(e) => Err(e.to_string()),
    }
}

/// Appends `sep` and `part` to `s`, or sets `s` to `part` when `s` is empty.
fn push_part(s: &mut String, sep: &str, part: &str)
    requires
        sep@.len() == 1,
    ensures
        final(s)@ == join_part(old(s)@, sep@[0], part@),
{
    if s.as_str().is_empty() {
        *s = String::from_str(part);
    } else {
        s.append(sep);
        s.append(part);
        assert(sep@ =~= seq![sep@[0]]);
    }
}

impl ImageReference {
    /// The whole reference as text, as `Reference::whole` writes it.
    pub fn whole(&self) -> (s: String)
        ensures
            s@ == self@.whole(),
    {
        proof {
            reveal_strlit("/");
            reveal_strlit(":");
            reveal_strlit("@");
        }
        let mut s = self.registry.clone();
        if s.as_str().is_empty() {
            s = self.repository.clone();
        } else {
            s.append("/");
            s.append(self.repository.as_str());
        }
        assert(s@ =~= self@.full_name());
        match &self.tag {
            Some(t) => push_part(&mut s, ":", t.as_str()),
            None => {},
        }
        match &self.digest {
            Some(d) => push_part(&mut s, "@", d.as_str()),
            None => {},
        }
        s
    }
}

/// Whether `s` begins with `prefix`, as `str::starts_with` answers it.
pub fn has_prefix(s: &str, prefix: &str) -> (b: bool)
    ensures
        b == prefix@.is_prefix_of(s@),
{
    let n = prefix.unicode_len();
    let m = s.unicode_len();
    if n > m {
        return false;
    }
    let mut i: usize = 0;
    while i < n
        invariant
            n == prefix@.len(),
            m == s@.len(),
            n <= m,
            i <= n,
            forall|j: int| 0 <= j < i ==> prefix@[j] == s@[j],
        decreases n - i,
    {
        if prefix.get_char(i) != s.get_char(i) {
            assert(prefix@[i as int] != s@.subrange(0, n as int)[i as int]);
            return false;
        }
        i = i + 1;
    }
    assert(prefix@ =~= s@.subrange(0, n as int));
    true
}

} // verus!
