//! Choosing the language of the messages: the requested locales are
//! parsed as language identifiers and matched against the locales the
//! message catalog has, falling back to English.
use crate::strs::seq_eq;
use vstd::prelude::*;

verus! {

/// What `unic_langid` reads from a locale string: its language subtag and
/// the whole identifier in canonical form, or nothing when it does not
/// parse.
pub uninterp spec fn parsed_langid(s: Seq<char>) -> Option<(Seq<char>, Seq<char>)>;

/// `s.parse::<unic_langid::LanguageIdentifier>()`; on success the language
/// (`language.as_str()`) and the identifier's canonical text
/// (`to_string()`). The pair is named [`parsed_langid`].
#[verifier::external_body]
fn parse_langid(s: &str) -> (r: Option<(String, String)>)
    ensures
        r matches Some(p) ==> parsed_langid(s@) == Some((p.0@, p.1@)),
        r is None ==> parsed_langid(s@) is None,
{
    match s.parse::<unic_langid::LanguageIdentifier>() {
        Ok(id) => Some((id.language.as_str().to_string(), id.to_string())),
        Err(_) => None,
    }
}

/// A language identifier: its language and its canonical text. Two
/// identifiers are the same when their canonical texts are.
#[derive(Debug, Clone, PartialEq, Eq)]
pub struct Locale {
    pub language: String,
    pub tag: String,
}

pub open spec fn locale_view(l: Locale) -> (Seq<char>, Seq<char>) {
    (l.language@, l.tag@)
}

/// The available locales that parse, in order.
pub open spec fn parsed_all(available: Seq<String>) -> Seq<(Seq<char>, Seq<char>)>
    decreases available.len(),
{
    if available.len() == 0 {
        Seq::empty()
    } else {
        let rest = parsed_all(available.drop_last());
        match parsed_langid(available.last()@) {
            Some(p) => rest.push(p),
            None => rest,
        }
    }
}

/// The first available identifier with the given canonical text.
pub open spec fn first_exact(avail: Seq<(Seq<char>, Seq<char>)>, tag: Seq<char>) -> Option<(Seq<char>, Seq<char>)>
    decreases avail.len(),
{
    if avail.len() == 0 {
        None
    } else if avail[0].1 == tag {
        Some(avail[0])
    } else {
        first_exact(avail.drop_first(), tag)
    }
}

/// The first available identifier with the given language.
pub open spec fn first_language(avail: Seq<(Seq<char>, Seq<char>)>, language: Seq<char>) -> Option<
    (Seq<char>, Seq<char>),
>
    decreases avail.len(),
{
    if avail.len() == 0 {
        None
    } else if avail[0].0 == language {
        Some(avail[0])
    } else {
        first_language(avail.drop_first(), language)
    }
}

/// The best available match of a requested identifier: the same
/// identifier, else one of the same language.
pub open spec fn find_best_spec(avail: Seq<(Seq<char>, Seq<char>)>, req: (Seq<char>, Seq<char>)) -> Option<
    (Seq<char>, Seq<char>),
> {
    match first_exact(avail, req.1) {
        Some(p) => Some(p),
        None => first_language(avail, req.0),
    }
}

/// The locale chosen for a list of requests: the best match of the first
/// request that parses and has one, else English.
pub open spec fn resolve_locale_spec(requested: Seq<String>, avail: Seq<(Seq<char>, Seq<char>)>) -> (
    Seq<char>,
    Seq<char>,
)
    decreases requested.len(),
{
    if requested.len() == 0 {
        ("en"@, "en"@)
    } else {
        match parsed_langid(requested[0]@) {
            Some(req) => match find_best_spec(avail, req) {
                Some(p) => p,
                None => resolve_locale_spec(requested.drop_first(), avail),
            },
            None => resolve_locale_spec(requested.drop_first(), avail),
        }
    }
}

/// Chooses among the locales the catalog has.
#[derive(Debug, Clone)]
pub struct LocaleResolver {
    pub available: Vec<Locale>,
}

pub open spec fn locales_view(v: Seq<Locale>) -> Seq<(Seq<char>, Seq<char>)> {
    Seq::new(v.len(), |i: int| locale_view(v[i]))
}

impl LocaleResolver {
    /// The resolver for the catalog's locales, as strings; those that do
    /// not parse are left out.
    pub fn new(available: &Vec<String>) -> (r: Self)
        ensures
            locales_view(r.available@) == parsed_all(available@),
    {
        let mut out: Vec<Locale> = Vec::new();
        let mut i: usize = 0;
        while i < available.len()
            invariant
                i <= available@.len(),
                locales_view(out@) == parsed_all(available@.take(i as int)),
            decreases available@.len() - i,
        {
            assert(available@.take(i + 1).drop_last() =~= available@.take(i as int));
            assert(available@.take(i + 1).last() == available@[i as int]);
            let ghost before = out@;
            match parse_langid(available[i].as_str()) {
                Some((language, tag)) => {
                    out.push(Locale { language, tag });
                    assert(locales_view(out@) =~= locales_view(before).push(locale_view(out@.last())));
                },
                None => {},
            }
            i = i + 1;
        }
        assert(available@.take(available@.len() as int) =~= available@);
        LocaleResolver { available: out }
    }

    /// The best available match of a requested identifier (see
    /// [`find_best_spec`]).
    pub fn find_best(&self, requested: &Locale) -> (r: Option<Locale>)
        ensures
            match r {
                Some(l) => find_best_spec(locales_view(self.available@), locale_view(*requested)) == Some(
                    locale_view(l),
                ),
                None => find_best_spec(locales_view(self.available@), locale_view(*requested)) is None,
            },
    {
        let ghost av = locales_view(self.available@);
        let rt = crate::strs::chars_of(requested.tag.as_str());
        let rl = crate::strs::chars_of(requested.language.as_str());
        let mut i: usize = 0;
        assert(av.skip(0) =~= av);
        while i < self.available.len()
            invariant
                i <= self.available@.len(),
                av == locales_view(self.available@),
                rt@ == requested.tag@,
                first_exact(av.skip(i as int), requested.tag@) == first_exact(av, requested.tag@),
            decreases self.available@.len() - i,
        {
            assert(av.skip(i as int)[0] == locale_view(self.available@[i as int]));
            assert(av.skip(i as int).drop_first() =~= av.skip(i + 1));
            if seq_eq(crate::strs::chars_of(self.available[i].tag.as_str()).as_slice(), rt.as_slice()) {
                return Some(self.available[i].clone_locale());
            }
            i = i + 1;
        }
        let mut j: usize = 0;
        while j < self.available.len()
            invariant
                j <= self.available@.len(),
                av == locales_view(self.available@),
                rl@ == requested.language@,
                first_exact(av, requested.tag@) is None,
                first_language(av.skip(j as int), requested.language@) == first_language(
                    av,
                    requested.language@,
                ),
            decreases self.available@.len() - j,
        {
            assert(av.skip(j as int)[0] == locale_view(self.available@[j as int]));
            assert(av.skip(j as int).drop_first() =~= av.skip(j + 1));
            if seq_eq(
                crate::strs::chars_of(self.available[j].language.as_str()).as_slice(),
                rl.as_slice(),
            ) {
                return Some(self.available[j].clone_locale());
            }
            j = j + 1;
        }
        None
    }

    /// The locale for a list of requested locale strings (see
    /// [`resolve_locale_spec`]).
    pub fn resolve(&self, requested: &Vec<String>) -> (r: Locale)
        ensures
            locale_view(r) == resolve_locale_spec(requested@, locales_view(self.available@)),
    {
        let ghost av = locales_view(self.available@);
        let mut i: usize = 0;
        assert(requested@.skip(0) =~= requested@);
        while i < requested.len()
            invariant
                i <= requested@.len(),
                av == locales_view(self.available@),
                resolve_locale_spec(requested@.skip(i as int), av) == resolve_locale_spec(requested@, av),
            decreases requested@.len() - i,
        {
            assert(requested@.skip(i as int)[0] == requested@[i as int]);
            assert(requested@.skip(i as int).drop_first() =~= requested@.skip(i + 1));
            match parse_langid(requested[i].as_str()) {
                Some((language, tag)) => {
                    let req = Locale { language, tag };
                    match self.find_best(&req) {
                        Some(l) => {
                            return l;
                        },
                        None => {},
                    }
                },
                None => {},
            }
            i = i + 1;
        }
        proof {
            reveal_strlit("en");
        }
        Locale { language: "en".to_owned(), tag: "en".to_owned() }
    }
}

impl Locale {
    /// A copy with the same texts.
    pub fn clone_locale(&self) -> (r: Locale)
        ensures
            locale_view(r) == locale_view(*self),
    {
        Locale { language: self.language.clone(), tag: self.tag.clone() }
    }
}

/// The locale for the requested locale strings among the available ones.
pub fn resolve_locale(requested: &Vec<String>, available: &Vec<String>) -> (r: Locale)
    ensures
        locale_view(r) == resolve_locale_spec(requested@, parsed_all(available@)),
{
    let resolver = LocaleResolver::new(available);
    resolver.resolve(requested)
}

} // verus!
