use vstd::prelude::*;
use crate::text::push_char;

verus! {

/// The rendered star string for a rating given in hundredths of a star:
/// below half a star it is `"*None.*"`; otherwise one filled star per whole
/// star, then one half-star glyph when at least half a star remains.
pub open spec fn star_rep(rating: nat) -> Seq<char> {
    if rating < 50 {
        "*None.*"@
    } else {
        Seq::new((rating / 100) as nat, |i: int| '\u{2605}') + (if rating % 100 >= 50 {
            seq!['\u{2be8}']
        } else {
            Seq::<char>::empty()
        })
    }
}

/// Renders a star rating (hundredths of a star) as filled and half-star
/// glyphs, or `"*None.*"` below half a star.
pub fn render_stars(rating: u32) -> (r: String)
    ensures
        r@ == star_rep(rating as nat),
{
    if rating < 50 {
        let mut s = String::new();
        s.append("*None.*");
        proof {
            assert(s@ =~= "*None.*"@);
        }
        s
    } else {
        let full = rating / 100;
        let mut s = String::new();
        let mut k: u32 = 0;
        while k < full
        invariant
            k <= full,
            s@ == Seq::new(k as nat, |i: int| '\u{2605}'),
        decreases full - k,
        {
            push_char(&mut s, '\u{2605}');
            k = k + 1;
            proof {
                assert(s@ =~= Seq::new(k as nat, |i: int| '\u{2605}'));
            }
        }
        if rating % 100 >= 50 {
            push_char(&mut s, '\u{2be8}');
        }
        proof {
            assert(s@ =~= star_rep(rating as nat));
        }
        s
    }
}

} // verus!
