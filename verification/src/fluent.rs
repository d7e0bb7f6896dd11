//! What the message-catalog side of the library owns: its error value, the
//! message-key convention, and the exact-match-then-language-fallback lookup
//! that both content negotiation and bundle lookup use.

use vstd::prelude::*;
use vstd::string::StringExecFns;

use crate::tag::LocaleTag;
use crate::tag::TagView;

verus! {

/// An error from the message catalog, carrying its cause.
#[derive(Debug)]
pub struct LocalizerError {
    pub cause: String,
}

impl LocalizerError {
    /// An error with the given cause.
    pub fn new(cause: String) -> (r: Self)
        ensures
            r.cause == cause,
    {
        LocalizerError { cause }
    }

    /// A human-readable description of the error.
    pub fn message(&self) -> (r: String)
        ensures
            r@ == "Localizer error: "@ + self.cause@,
    {
        let mut m = String::from_str("Localizer error: ");
        m.append(self.cause.as_str());
        m
    }
}

/// Something that names a message: a key, and optionally an attribute
/// sub-key.
pub trait MessageKey {
    fn key(&self) -> &str;

    fn attribute(&self) -> Option<&str> {
        None
    }
}

impl MessageKey for str {
    fn key(&self) -> &str {
        self
    }
}

impl MessageKey for String {
    fn key(&self) -> &str {
        self.as_str()
    }
}

/// A message key together with an attribute sub-key.
#[derive(Debug, Clone, Copy)]
pub struct MessageAttribute<'key, 'attribute> {
    pub key: &'key str,
    pub attribute: &'attribute str,
}

impl<'key, 'attribute> MessageKey for MessageAttribute<'key, 'attribute> {
    fn key(&self) -> &str {
        self.key
    }

    fn attribute(&self) -> Option<&str> {
        Some(self.attribute)
    }
}

/// Index of the first registry entry whose full tag equals `t`'s, or the
/// registry's length when none does.
pub open spec fn spec_find_full(t: TagView, reg: Seq<LocaleTag>) -> int
    decreases reg.len(),
{
    if reg.len() == 0 {
        0
    } else if reg[0]@.full == t.full {
        0
    } else {
        1 + spec_find_full(t, reg.drop_first())
    }
}

/// Index of the first registry entry whose language subtag equals `t`'s, or
/// the registry's length when none does.
pub open spec fn spec_find_lang(t: TagView, reg: Seq<LocaleTag>) -> int
    decreases reg.len(),
{
    if reg.len() == 0 {
        0
    } else if reg[0]@.language == t.language {
        0
    } else {
        1 + spec_find_lang(t, reg.drop_first())
    }
}

pub proof fn lemma_spec_find_full(t: TagView, reg: Seq<LocaleTag>)
    ensures
        0 <= spec_find_full(t, reg) <= reg.len(),
        spec_find_full(t, reg) < reg.len() ==> reg[spec_find_full(t, reg)]@.full == t.full,
        forall|j: int| 0 <= j < spec_find_full(t, reg) ==> (#[trigger] reg[j])@.full != t.full,
    decreases reg.len(),
{
    if reg.len() == 0 {
    } else if reg[0]@.full == t.full {
    } else {
        lemma_spec_find_full(t, reg.drop_first());
        assert forall|j: int| 0 <= j < spec_find_full(t, reg) implies (#[trigger] reg[j])@.full
            != t.full by {
            if j > 0 {
                assert(reg.drop_first()[j - 1] == reg[j]);
            }
        }
    }
}

pub proof fn lemma_spec_find_lang(t: TagView, reg: Seq<LocaleTag>)
    ensures
        0 <= spec_find_lang(t, reg) <= reg.len(),
        spec_find_lang(t, reg) < reg.len() ==> reg[spec_find_lang(t, reg)]@.language == t.language,
        forall|j: int|
            0 <= j < spec_find_lang(t, reg) ==> (#[trigger] reg[j])@.language != t.language,
    decreases reg.len(),
{
    if reg.len() == 0 {
    } else if reg[0]@.language == t.language {
    } else {
        lemma_spec_find_lang(t, reg.drop_first());
        assert forall|j: int| 0 <= j < spec_find_lang(t, reg) implies (#[trigger] reg[j])@.language
            != t.language by {
            if j > 0 {
                assert(reg.drop_first()[j - 1] == reg[j]);
            }
        }
    }
}

/// The registry entry a tag resolves to: the first entry equal by full tag;
/// failing that, the first entry equal by language subtag; failing that,
/// none.
pub open spec fn spec_resolve(t: TagView, reg: Seq<LocaleTag>) -> Option<int> {
    if spec_find_full(t, reg) < reg.len() {
        Some(spec_find_full(t, reg))
    } else if spec_find_lang(t, reg) < reg.len() {
        Some(spec_find_lang(t, reg))
    } else {
        None
    }
}

/// Look a tag up in an ordered registry of tags: first by full-tag
/// equality, else the first entry with the same language subtag.
pub fn resolve_locale(tag: &LocaleTag, registry: &Vec<LocaleTag>) -> (r: Option<usize>)
    ensures
        match r {
            Some(i) => i < registry@.len() && spec_resolve(tag@, registry@) == Some(i as int),
            None => spec_resolve(tag@, registry@) is None,
        },
{
    let n = registry.len();
    let mut i: usize = 0;
    while i < n
        invariant
            n == registry@.len(),
            0 <= i <= n,
            forall|j: int| 0 <= j < i ==> (#[trigger] registry@[j])@.full != tag@.full,
        decreases n - i,
    {
        if registry[i].same_full(tag) {
            proof {
                lemma_spec_find_full(tag@, registry@);
            }
            return Some(i);
        }
        i += 1;
    }
    proof {
        lemma_spec_find_full(tag@, registry@);
    }
    let mut k: usize = 0;
    while k < n
        invariant
            n == registry@.len(),
            0 <= k <= n,
            forall|j: int| 0 <= j < n ==> (#[trigger] registry@[j])@.full != tag@.full,
            forall|j: int| 0 <= j < k ==> (#[trigger] registry@[j])@.language != tag@.language,
        decreases n - k,
    {
        if registry[k].same_language(tag) {
            proof {
                lemma_spec_find_full(tag@, registry@);
                lemma_spec_find_lang(tag@, registry@);
            }
            return Some(k);
        }
        k += 1;
    }
    proof {
        lemma_spec_find_full(tag@, registry@);
        lemma_spec_find_lang(tag@, registry@);
    }
    None
}

} // verus!
