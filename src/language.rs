use vstd::prelude::*;

verus! {

/// The shading languages that a validator backend exists for.
#[derive(Clone, Copy, Debug, PartialEq, Eq, Structural)]
pub enum ShadingLanguage {
    Wgsl,
    Hlsl,
}

/// The identifier that selects each language, matched exactly.
pub open spec fn language_identifier(l: ShadingLanguage) -> Seq<char> {
    match l {
        ShadingLanguage::Wgsl => seq!['w', 'g', 's', 'l'],
        ShadingLanguage::Hlsl => seq!['h', 'l', 's', 'l'],
    }
}

/// The language an identifier names, if any: no case folding, no prefixes.
pub open spec fn language_of(id: Seq<char>) -> Option<ShadingLanguage> {
    if id == language_identifier(ShadingLanguage::Wgsl) {
        Some(ShadingLanguage::Wgsl)
    } else if id == language_identifier(ShadingLanguage::Hlsl) {
        Some(ShadingLanguage::Hlsl)
    } else {
        None
    }
}

/// Character-wise equality of a string and a sequence of characters.
fn str_matches(s: &str, expected: &[char]) -> (r: bool)
    ensures
        r == (s@ == expected@),
{
    let n = s.unicode_len();
    if n != expected.len() {
        return false;
    }
    let mut i: usize = 0;
    while i < n
        invariant
            n == s@.len(),
            n == expected@.len(),
            i <= n,
            forall|j: int| 0 <= j < i ==> s@[j] == expected@[j],
        decreases n - i,
    {
        if s.get_char(i) != expected[i] {
            return false;
        }
        i = i + 1;
    }
    assert(s@ =~= expected@);
    true
}

impl ShadingLanguage {
    /// Parses a language identifier; anything but an exact identifier is refused.
    pub fn parse(id: &str) -> (r: Result<ShadingLanguage, ()>)
        ensures
            r matches Ok(l) ==> language_of(id@) == Some(l),
            r is Err <==> language_of(id@) is None,
    {
        let wgsl = ['w', 'g', 's', 'l'];
        let hlsl = ['h', 'l', 's', 'l'];
        assert(wgsl@ =~= language_identifier(ShadingLanguage::Wgsl));
        assert(hlsl@ =~= language_identifier(ShadingLanguage::Hlsl));
        if str_matches(id, &wgsl) {
            Ok(ShadingLanguage::Wgsl)
        } else if str_matches(id, &hlsl) {
            Ok(ShadingLanguage::Hlsl)
        } else {
            Err(())
        }
    }

    /// The identifier of this language.
    pub fn identifier(&self) -> (r: String)
        ensures
            r@ == language_identifier(*self),
    {
        match self {
            ShadingLanguage::Wgsl => {
                let r = String::from_str("wgsl");
                proof { reveal_strlit("wgsl"); }
                assert(r@ =~= language_identifier(*self));
                r
            },
            ShadingLanguage::Hlsl => {
                let r = String::from_str("hlsl");
                proof { reveal_strlit("hlsl"); }
                assert(r@ =~= language_identifier(*self));
                r
            },
        }
    }
}

/// Every language is found again from its own identifier.
pub proof fn lemma_identifier_round_trip(l: ShadingLanguage)
    ensures
        language_of(language_identifier(l)) == Some(l),
{
    assert(language_identifier(ShadingLanguage::Wgsl) != language_identifier(ShadingLanguage::Hlsl)) by {
        assert(language_identifier(ShadingLanguage::Wgsl)[0] != language_identifier(ShadingLanguage::Hlsl)[0]);
    }
}

/// The empty identifier names no language.
pub proof fn lemma_empty_identifier_rejected()
    ensures
        language_of(Seq::<char>::empty()) is None,
{
    assert(language_identifier(ShadingLanguage::Wgsl).len() == 4);
    assert(language_identifier(ShadingLanguage::Hlsl).len() == 4);
}

} // verus!
