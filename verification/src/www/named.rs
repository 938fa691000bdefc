//! The table of named colours.
//!
//! The names and their packed colour codes are those of the CSS Color
//! Module Level 4 specification, with each name mapped to its channels
//! packed red-first and an alpha byte of `0xFF` (`transparent` being the
//! one fully clear entry).

use vstd::prelude::*;
use vstd::slice::slice_index_get;
use vstd::string::StringSliceAdditionalSpecFns;

verus! {

/// True when the byte strings `a` and `b` hold the same bytes.
fn bytes_eq(a: &[u8], b: &[u8]) -> (r: bool)
    ensures
        r == (a@ == b@),
{
    if a.len() != b.len() {
        assert(a@.len() != b@.len());
        return false;
    }
    let mut i: usize = 0;
    while i < a.len()
        invariant
            0 <= i <= a@.len(),
            a@.len() == b@.len(),
            forall|j: int| 0 <= j < i ==> a@[j] == b@[j],
        decreases a@.len() - i,
    {
        if *slice_index_get(a, i) != *slice_index_get(b, i) {
            return false;
        }
        i += 1;
    }
    proof {
        assert(a@ =~= b@);
    }
    true
}

/// The packed colour code of the named colour whose name is the byte
/// string `b`, or `None` when no colour of that name exists.
///
/// Lookup is a case-sensitive exact match: the names are stored in
/// lowercase, and a name in any other case matches nothing.
pub open spec fn named_colour_spec(b: Seq<u8>) -> Option<u32> {
    if b == "aliceblue".spec_bytes() {
        Some(0xF0F8FFFFu32)
    } else if b == "antiquewhite".spec_bytes() {
        Some(0xFAEBD7FFu32)
    } else if b == "aqua".spec_bytes() {
        Some(0x00FFFFFFu32)
    } else if b == "aquamarine".spec_bytes() {
        Some(0x7FFFD4FFu32)
    } else if b == "azure".spec_bytes() {
        Some(0xF0FFFFFFu32)
    } else if b == "beige".spec_bytes() {
        Some(0xF5F5DCFFu32)
    } else if b == "bisque".spec_bytes() {
        Some(0xFFE4C4FFu32)
    } else if b == "black".spec_bytes() {
        Some(0x000000FFu32)
    } else if b == "blanchedalmond".spec_bytes() {
        Some(0xFFEBCDFFu32)
    } else if b == "blue".spec_bytes() {
        Some(0x0000FFFFu32)
    } else if b == "blueviolet".spec_bytes() {
        Some(0x8A2BE2FFu32)
    } else if b == "brown".spec_bytes() {
        Some(0xA52A2AFFu32)
    } else if b == "burlywood".spec_bytes() {
        Some(0xDEB887FFu32)
    } else if b == "cadetblue".spec_bytes() {
        Some(0x5F9EA0FFu32)
    } else if b == "chartreuse".spec_bytes() {
        Some(0x7FFF00FFu32)
    } else if b == "chocolate".spec_bytes() {
        Some(0xD2691EFFu32)
    } else if b == "coral".spec_bytes() {
        Some(0xFF7F50FFu32)
    } else if b == "cornflowerblue".spec_bytes() {
        Some(0x6495EDFFu32)
    } else if b == "cornsilk".spec_bytes() {
        Some(0xFFF8DCFFu32)
    } else if b == "crimson".spec_bytes() {
        Some(0xDC143CFFu32)
    } else if b == "cyan".spec_bytes() {
        Some(0x00FFFFFFu32)
    } else if b == "darkblue".spec_bytes() {
        Some(0x00008BFFu32)
    } else if b == "darkcyan".spec_bytes() {
        Some(0x008B8BFFu32)
    } else if b == "darkgoldenrod".spec_bytes() {
        Some(0xB8860BFFu32)
    } else if b == "darkgray".spec_bytes() {
        Some(0xA9A9A9FFu32)
    } else if b == "darkgreen".spec_bytes() {
        Some(0x006400FFu32)
    } else if b == "darkgrey".spec_bytes() {
        Some(0xA9A9A9FFu32)
    } else if b == "darkkhaki".spec_bytes() {
        Some(0xBDB76BFFu32)
    } else if b == "darkmagenta".spec_bytes() {
        Some(0x8B008BFFu32)
    } else if b == "darkolivegreen".spec_bytes() {
        Some(0x556B2FFFu32)
    } else if b == "darkorange".spec_bytes() {
        Some(0xFF8C00FFu32)
    } else if b == "darkorchid".spec_bytes() {
        Some(0x9932CCFFu32)
    } else if b == "darkred".spec_bytes() {
        Some(0x8B0000FFu32)
    } else if b == "darksalmon".spec_bytes() {
        Some(0xE9967AFFu32)
    } else if b == "darkseagreen".spec_bytes() {
        Some(0x8FBC8FFFu32)
    } else if b == "darkslateblue".spec_bytes() {
        Some(0x483D8BFFu32)
    } else if b == "darkslategray".spec_bytes() {
        Some(0x2F4F4FFFu32)
    } else if b == "darkslategrey".spec_bytes() {
        Some(0x2F4F4FFFu32)
    } else if b == "darkturquoise".spec_bytes() {
        Some(0x00CED1FFu32)
    } else if b == "darkviolet".spec_bytes() {
        Some(0x9400D3FFu32)
    } else if b == "deeppink".spec_bytes() {
        Some(0xFF1493FFu32)
    } else if b == "deepskyblue".spec_bytes() {
        Some(0x00BFFFFFu32)
    } else if b == "dimgray".spec_bytes() {
        Some(0x696969FFu32)
    } else if b == "dimgrey".spec_bytes() {
        Some(0x696969FFu32)
    } else if b == "dodgerblue".spec_bytes() {
        Some(0x1E90FFFFu32)
    } else if b == "firebrick".spec_bytes() {
        Some(0xB22222FFu32)
    } else if b == "floralwhite".spec_bytes() {
        Some(0xFFFAF0FFu32)
    } else if b == "forestgreen".spec_bytes() {
        Some(0x228B22FFu32)
    } else if b == "fuchsia".spec_bytes() {
        Some(0xFF00FFFFu32)
    } else if b == "gainsboro".spec_bytes() {
        Some(0xDCDCDCFFu32)
    } else if b == "ghostwhite".spec_bytes() {
        Some(0xF8F8FFFFu32)
    } else if b == "gold".spec_bytes() {
        Some(0xFFD700FFu32)
    } else if b == "goldenrod".spec_bytes() {
        Some(0xDAA520FFu32)
    } else if b == "gray".spec_bytes() {
        Some(0x808080FFu32)
    } else if b == "green".spec_bytes() {
        Some(0x008000FFu32)
    } else if b == "greenyellow".spec_bytes() {
        Some(0xADFF2FFFu32)
    } else if b == "grey".spec_bytes() {
        Some(0x808080FFu32)
    } else if b == "honeydew".spec_bytes() {
        Some(0xF0FFF0FFu32)
    } else if b == "hotpink".spec_bytes() {
        Some(0xFF69B4FFu32)
    } else if b == "indianred".spec_bytes() {
        Some(0xCD5C5CFFu32)
    } else if b == "indigo".spec_bytes() {
        Some(0x4B0082FFu32)
    } else if b == "ivory".spec_bytes() {
        Some(0xFFFFF0FFu32)
    } else if b == "khaki".spec_bytes() {
        Some(0xF0E68CFFu32)
    } else if b == "lavender".spec_bytes() {
        Some(0xE6E6FAFFu32)
    } else if b == "lavenderblush".spec_bytes() {
        Some(0xFFF0F5FFu32)
    } else if b == "lawngreen".spec_bytes() {
        Some(0x7CFC00FFu32)
    } else if b == "lemonchiffon".spec_bytes() {
        Some(0xFFFACDFFu32)
    } else if b == "lightblue".spec_bytes() {
        Some(0xADD8E6FFu32)
    } else if b == "lightcoral".spec_bytes() {
        Some(0xF08080FFu32)
    } else if b == "lightcyan".spec_bytes() {
        Some(0xE0FFFFFFu32)
    } else if b == "lightgoldenrodyellow".spec_bytes() {
        Some(0xFAFAD2FFu32)
    } else if b == "lightgray".spec_bytes() {
        Some(0xD3D3D3FFu32)
    } else if b == "lightgreen".spec_bytes() {
        Some(0x90EE90FFu32)
    } else if b == "lightgrey".spec_bytes() {
        Some(0xD3D3D3FFu32)
    } else if b == "lightpink".spec_bytes() {
        Some(0xFFB6C1FFu32)
    } else if b == "lightsalmon".spec_bytes() {
        Some(0xFFA07AFFu32)
    } else if b == "lightseagreen".spec_bytes() {
        Some(0x20B2AAFFu32)
    } else if b == "lightskyblue".spec_bytes() {
        Some(0x87CEFAFFu32)
    } else if b == "lightslategray".spec_bytes() {
        Some(0x778899FFu32)
    } else if b == "lightslategrey".spec_bytes() {
        Some(0x778899FFu32)
    } else if b == "lightsteelblue".spec_bytes() {
        Some(0xB0C4DEFFu32)
    } else if b == "lightyellow".spec_bytes() {
        Some(0xFFFFE0FFu32)
    } else if b == "lime".spec_bytes() {
        Some(0x00FF00FFu32)
    } else if b == "limegreen".spec_bytes() {
        Some(0x32CD32FFu32)
    } else if b == "linen".spec_bytes() {
        Some(0xFAF0E6FFu32)
    } else if b == "magenta".spec_bytes() {
        Some(0xFF00FFFFu32)
    } else if b == "maroon".spec_bytes() {
        Some(0x800000FFu32)
    } else if b == "mediumaquamarine".spec_bytes() {
        Some(0x66CDAAFFu32)
    } else if b == "mediumblue".spec_bytes() {
        Some(0x0000CDFFu32)
    } else if b == "mediumorchid".spec_bytes() {
        Some(0xBA55D3FFu32)
    } else if b == "mediumpurple".spec_bytes() {
        Some(0x9370DBFFu32)
    } else if b == "mediumseagreen".spec_bytes() {
        Some(0x3CB371FFu32)
    } else if b == "mediumslateblue".spec_bytes() {
        Some(0x7B68EEFFu32)
    } else if b == "mediumspringgreen".spec_bytes() {
        Some(0x00FA9AFFu32)
    } else if b == "mediumturquoise".spec_bytes() {
        Some(0x48D1CCFFu32)
    } else if b == "mediumvioletred".spec_bytes() {
        Some(0xC71585FFu32)
    } else if b == "midnightblue".spec_bytes() {
        Some(0x191970FFu32)
    } else if b == "mintcream".spec_bytes() {
        Some(0xF5FFFAFFu32)
    } else if b == "mistyrose".spec_bytes() {
        Some(0xFFE4E1FFu32)
    } else if b == "moccasin".spec_bytes() {
        Some(0xFFE4B5FFu32)
    } else if b == "navajowhite".spec_bytes() {
        Some(0xFFDEADFFu32)
    } else if b == "navy".spec_bytes() {
        Some(0x000080FFu32)
    } else if b == "oldlace".spec_bytes() {
        Some(0xFDF5E6FFu32)
    } else if b == "olive".spec_bytes() {
        Some(0x808000FFu32)
    } else if b == "olivedrab".spec_bytes() {
        Some(0x6B8E23FFu32)
    } else if b == "orange".spec_bytes() {
        Some(0xFFA500FFu32)
    } else if b == "orangered".spec_bytes() {
        Some(0xFF4500FFu32)
    } else if b == "orchid".spec_bytes() {
        Some(0xDA70D6FFu32)
    } else if b == "palegoldenrod".spec_bytes() {
        Some(0xEEE8AAFFu32)
    } else if b == "palegreen".spec_bytes() {
        Some(0x98FB98FFu32)
    } else if b == "paleturquoise".spec_bytes() {
        Some(0xAFEEEEFFu32)
    } else if b == "palevioletred".spec_bytes() {
        Some(0xDB7093FFu32)
    } else if b == "papayawhip".spec_bytes() {
        Some(0xFFEFD5FFu32)
    } else if b == "peachpuff".spec_bytes() {
        Some(0xFFDAB9FFu32)
    } else if b == "peru".spec_bytes() {
        Some(0xCD853FFFu32)
    } else if b == "pink".spec_bytes() {
        Some(0xFFC0CBFFu32)
    } else if b == "plum".spec_bytes() {
        Some(0xDDA0DDFFu32)
    } else if b == "powderblue".spec_bytes() {
        Some(0xB0E0E6FFu32)
    } else if b == "purple".spec_bytes() {
        Some(0x800080FFu32)
    } else if b == "rebeccapurple".spec_bytes() {
        Some(0x663399FFu32)
    } else if b == "red".spec_bytes() {
        Some(0xFF0000FFu32)
    } else if b == "rosybrown".spec_bytes() {
        Some(0xBC8F8FFFu32)
    } else if b == "royalblue".spec_bytes() {
        Some(0x4169E1FFu32)
    } else if b == "saddlebrown".spec_bytes() {
        Some(0x8B4513FFu32)
    } else if b == "salmon".spec_bytes() {
        Some(0xFA8072FFu32)
    } else if b == "sandybrown".spec_bytes() {
        Some(0xF4A460FFu32)
    } else if b == "seagreen".spec_bytes() {
        Some(0x2E8B57FFu32)
    } else if b == "seashell".spec_bytes() {
        Some(0xFFF5EEFFu32)
    } else if b == "sienna".spec_bytes() {
        Some(0xA0522DFFu32)
    } else if b == "silver".spec_bytes() {
        Some(0xC0C0C0FFu32)
    } else if b == "skyblue".spec_bytes() {
        Some(0x87CEEBFFu32)
    } else if b == "slateblue".spec_bytes() {
        Some(0x6A5ACDFFu32)
    } else if b == "slategray".spec_bytes() {
        Some(0x708090FFu32)
    } else if b == "slategrey".spec_bytes() {
        Some(0x708090FFu32)
    } else if b == "snow".spec_bytes() {
        Some(0xFFFAFAFFu32)
    } else if b == "springgreen".spec_bytes() {
        Some(0x00FF7FFFu32)
    } else if b == "steelblue".spec_bytes() {
        Some(0x4682B4FFu32)
    } else if b == "tan".spec_bytes() {
        Some(0xD2B48CFFu32)
    } else if b == "teal".spec_bytes() {
        Some(0x008080FFu32)
    } else if b == "thistle".spec_bytes() {
        Some(0xD8BFD8FFu32)
    } else if b == "tomato".spec_bytes() {
        Some(0xFF6347FFu32)
    } else if b == "transparent".spec_bytes() {
        Some(0x00000000u32)
    } else if b == "turquoise".spec_bytes() {
        Some(0x40E0D0FFu32)
    } else if b == "violet".spec_bytes() {
        Some(0xEE82EEFFu32)
    } else if b == "wheat".spec_bytes() {
        Some(0xF5DEB3FFu32)
    } else if b == "white".spec_bytes() {
        Some(0xFFFFFFFFu32)
    } else if b == "whitesmoke".spec_bytes() {
        Some(0xF5F5F5FFu32)
    } else if b == "yellow".spec_bytes() {
        Some(0xFFFF00FFu32)
    } else if b == "yellowgreen".spec_bytes() {
        Some(0x9ACD32FFu32)
    } else {
        None
    }
}

/// Looks the byte string `b` up in the table of named colours, as
/// described by [`named_colour_spec`].
pub fn named_colour(b: &[u8]) -> (r: Option<u32>)
    ensures
        r == named_colour_spec(b@),
{
    if bytes_eq(b, "aliceblue".as_bytes()) {
        return Some(0xF0F8FFFF);
    }
    if bytes_eq(b, "antiquewhite".as_bytes()) {
        return Some(0xFAEBD7FF);
    }
    if bytes_eq(b, "aqua".as_bytes()) {
        return Some(0x00FFFFFF);
    }
    if bytes_eq(b, "aquamarine".as_bytes()) {
        return Some(0x7FFFD4FF);
    }
    if bytes_eq(b, "azure".as_bytes()) {
        return Some(0xF0FFFFFF);
    }
    if bytes_eq(b, "beige".as_bytes()) {
        return Some(0xF5F5DCFF);
    }
    if bytes_eq(b, "bisque".as_bytes()) {
        return Some(0xFFE4C4FF);
    }
    if bytes_eq(b, "black".as_bytes()) {
        return Some(0x000000FF);
    }
    if bytes_eq(b, "blanchedalmond".as_bytes()) {
        return Some(0xFFEBCDFF);
    }
    if bytes_eq(b, "blue".as_bytes()) {
        return Some(0x0000FFFF);
    }
    if bytes_eq(b, "blueviolet".as_bytes()) {
        return Some(0x8A2BE2FF);
    }
    if bytes_eq(b, "brown".as_bytes()) {
        return Some(0xA52A2AFF);
    }
    if bytes_eq(b, "burlywood".as_bytes()) {
        return Some(0xDEB887FF);
    }
    if bytes_eq(b, "cadetblue".as_bytes()) {
        return Some(0x5F9EA0FF);
    }
    if bytes_eq(b, "chartreuse".as_bytes()) {
        return Some(0x7FFF00FF);
    }
    if bytes_eq(b, "chocolate".as_bytes()) {
        return Some(0xD2691EFF);
    }
    if bytes_eq(b, "coral".as_bytes()) {
        return Some(0xFF7F50FF);
    }
    if bytes_eq(b, "cornflowerblue".as_bytes()) {
        return Some(0x6495EDFF);
    }
    if bytes_eq(b, "cornsilk".as_bytes()) {
        return Some(0xFFF8DCFF);
    }
    if bytes_eq(b, "crimson".as_bytes()) {
        return Some(0xDC143CFF);
    }
    if bytes_eq(b, "cyan".as_bytes()) {
        return Some(0x00FFFFFF);
    }
    if bytes_eq(b, "darkblue".as_bytes()) {
        return Some(0x00008BFF);
    }
    if bytes_eq(b, "darkcyan".as_bytes()) {
        return Some(0x008B8BFF);
    }
    if bytes_eq(b, "darkgoldenrod".as_bytes()) {
        return Some(0xB8860BFF);
    }
    if bytes_eq(b, "darkgray".as_bytes()) {
        return Some(0xA9A9A9FF);
    }
    if bytes_eq(b, "darkgreen".as_bytes()) {
        return Some(0x006400FF);
    }
    if bytes_eq(b, "darkgrey".as_bytes()) {
        return Some(0xA9A9A9FF);
    }
    if bytes_eq(b, "darkkhaki".as_bytes()) {
        return Some(0xBDB76BFF);
    }
    if bytes_eq(b, "darkmagenta".as_bytes()) {
        return Some(0x8B008BFF);
    }
    if bytes_eq(b, "darkolivegreen".as_bytes()) {
        return Some(0x556B2FFF);
    }
    if bytes_eq(b, "darkorange".as_bytes()) {
        return Some(0xFF8C00FF);
    }
    if bytes_eq(b, "darkorchid".as_bytes()) {
        return Some(0x9932CCFF);
    }
    if bytes_eq(b, "darkred".as_bytes()) {
        return Some(0x8B0000FF);
    }
    if bytes_eq(b, "darksalmon".as_bytes()) {
        return Some(0xE9967AFF);
    }
    if bytes_eq(b, "darkseagreen".as_bytes()) {
        return Some(0x8FBC8FFF);
    }
    if bytes_eq(b, "darkslateblue".as_bytes()) {
        return Some(0x483D8BFF);
    }
    if bytes_eq(b, "darkslategray".as_bytes()) {
        return Some(0x2F4F4FFF);
    }
    if bytes_eq(b, "darkslategrey".as_bytes()) {
        return Some(0x2F4F4FFF);
    }
    if bytes_eq(b, "darkturquoise".as_bytes()) {
        return Some(0x00CED1FF);
    }
    if bytes_eq(b, "darkviolet".as_bytes()) {
        return Some(0x9400D3FF);
    }
    if bytes_eq(b, "deeppink".as_bytes()) {
        return Some(0xFF1493FF);
    }
    if bytes_eq(b, "deepskyblue".as_bytes()) {
        return Some(0x00BFFFFF);
    }
    if bytes_eq(b, "dimgray".as_bytes()) {
        return Some(0x696969FF);
    }
    if bytes_eq(b, "dimgrey".as_bytes()) {
        return Some(0x696969FF);
    }
    if bytes_eq(b, "dodgerblue".as_bytes()) {
        return Some(0x1E90FFFF);
    }
    if bytes_eq(b, "firebrick".as_bytes()) {
        return Some(0xB22222FF);
    }
    if bytes_eq(b, "floralwhite".as_bytes()) {
        return Some(0xFFFAF0FF);
    }
    if bytes_eq(b, "forestgreen".as_bytes()) {
        return Some(0x228B22FF);
    }
    if bytes_eq(b, "fuchsia".as_bytes()) {
        return Some(0xFF00FFFF);
    }
    if bytes_eq(b, "gainsboro".as_bytes()) {
        return Some(0xDCDCDCFF);
    }
    if bytes_eq(b, "ghostwhite".as_bytes()) {
        return Some(0xF8F8FFFF);
    }
    if bytes_eq(b, "gold".as_bytes()) {
        return Some(0xFFD700FF);
    }
    if bytes_eq(b, "goldenrod".as_bytes()) {
        return Some(0xDAA520FF);
    }
    if bytes_eq(b, "gray".as_bytes()) {
        return Some(0x808080FF);
    }
    if bytes_eq(b, "green".as_bytes()) {
        return Some(0x008000FF);
    }
    if bytes_eq(b, "greenyellow".as_bytes()) {
        return Some(0xADFF2FFF);
    }
    if bytes_eq(b, "grey".as_bytes()) {
        return Some(0x808080FF);
    }
    if bytes_eq(b, "honeydew".as_bytes()) {
        return Some(0xF0FFF0FF);
    }
    if bytes_eq(b, "hotpink".as_bytes()) {
        return Some(0xFF69B4FF);
    }
    if bytes_eq(b, "indianred".as_bytes()) {
        return Some(0xCD5C5CFF);
    }
    if bytes_eq(b, "indigo".as_bytes()) {
        return Some(0x4B0082FF);
    }
    if bytes_eq(b, "ivory".as_bytes()) {
        return Some(0xFFFFF0FF);
    }
    if bytes_eq(b, "khaki".as_bytes()) {
        return Some(0xF0E68CFF);
    }
    if bytes_eq(b, "lavender".as_bytes()) {
        return Some(0xE6E6FAFF);
    }
    if bytes_eq(b, "lavenderblush".as_bytes()) {
        return Some(0xFFF0F5FF);
    }
    if bytes_eq(b, "lawngreen".as_bytes()) {
        return Some(0x7CFC00FF);
    }
    if bytes_eq(b, "lemonchiffon".as_bytes()) {
        return Some(0xFFFACDFF);
    }
    if bytes_eq(b, "lightblue".as_bytes()) {
        return Some(0xADD8E6FF);
    }
    if bytes_eq(b, "lightcoral".as_bytes()) {
        return Some(0xF08080FF);
    }
    if bytes_eq(b, "lightcyan".as_bytes()) {
        return Some(0xE0FFFFFF);
    }
    if bytes_eq(b, "lightgoldenrodyellow".as_bytes()) {
        return Some(0xFAFAD2FF);
    }
    if bytes_eq(b, "lightgray".as_bytes()) {
        return Some(0xD3D3D3FF);
    }
    if bytes_eq(b, "lightgreen".as_bytes()) {
        return Some(0x90EE90FF);
    }
    if bytes_eq(b, "lightgrey".as_bytes()) {
        return Some(0xD3D3D3FF);
    }
    if bytes_eq(b, "lightpink".as_bytes()) {
        return Some(0xFFB6C1FF);
    }
    if bytes_eq(b, "lightsalmon".as_bytes()) {
        return Some(0xFFA07AFF);
    }
    if bytes_eq(b, "lightseagreen".as_bytes()) {
        return Some(0x20B2AAFF);
    }
    if bytes_eq(b, "lightskyblue".as_bytes()) {
        return Some(0x87CEFAFF);
    }
    if bytes_eq(b, "lightslategray".as_bytes()) {
        return Some(0x778899FF);
    }
    if bytes_eq(b, "lightslategrey".as_bytes()) {
        return Some(0x778899FF);
    }
    if bytes_eq(b, "lightsteelblue".as_bytes()) {
        return Some(0xB0C4DEFF);
    }
    if bytes_eq(b, "lightyellow".as_bytes()) {
        return Some(0xFFFFE0FF);
    }
    if bytes_eq(b, "lime".as_bytes()) {
        return Some(0x00FF00FF);
    }
    if bytes_eq(b, "limegreen".as_bytes()) {
        return Some(0x32CD32FF);
    }
    if bytes_eq(b, "linen".as_bytes()) {
        return Some(0xFAF0E6FF);
    }
    if bytes_eq(b, "magenta".as_bytes()) {
        return Some(0xFF00FFFF);
    }
    if bytes_eq(b, "maroon".as_bytes()) {
        return Some(0x800000FF);
    }
    if bytes_eq(b, "mediumaquamarine".as_bytes()) {
        return Some(0x66CDAAFF);
    }
    if bytes_eq(b, "mediumblue".as_bytes()) {
        return Some(0x0000CDFF);
    }
    if bytes_eq(b, "mediumorchid".as_bytes()) {
        return Some(0xBA55D3FF);
    }
    if bytes_eq(b, "mediumpurple".as_bytes()) {
        return Some(0x9370DBFF);
    }
    if bytes_eq(b, "mediumseagreen".as_bytes()) {
        return Some(0x3CB371FF);
    }
    if bytes_eq(b, "mediumslateblue".as_bytes()) {
        return Some(0x7B68EEFF);
    }
    if bytes_eq(b, "mediumspringgreen".as_bytes()) {
        return Some(0x00FA9AFF);
    }
    if bytes_eq(b, "mediumturquoise".as_bytes()) {
        return Some(0x48D1CCFF);
    }
    if bytes_eq(b, "mediumvioletred".as_bytes()) {
        return Some(0xC71585FF);
    }
    if bytes_eq(b, "midnightblue".as_bytes()) {
        return Some(0x191970FF);
    }
    if bytes_eq(b, "mintcream".as_bytes()) {
        return Some(0xF5FFFAFF);
    }
    if bytes_eq(b, "mistyrose".as_bytes()) {
        return Some(0xFFE4E1FF);
    }
    if bytes_eq(b, "moccasin".as_bytes()) {
        return Some(0xFFE4B5FF);
    }
    if bytes_eq(b, "navajowhite".as_bytes()) {
        return Some(0xFFDEADFF);
    }
    if bytes_eq(b, "navy".as_bytes()) {
        return Some(0x000080FF);
    }
    if bytes_eq(b, "oldlace".as_bytes()) {
        return Some(0xFDF5E6FF);
    }
    if bytes_eq(b, "olive".as_bytes()) {
        return Some(0x808000FF);
    }
    if bytes_eq(b, "olivedrab".as_bytes()) {
        return Some(0x6B8E23FF);
    }
    if bytes_eq(b, "orange".as_bytes()) {
        return Some(0xFFA500FF);
    }
    if bytes_eq(b, "orangered".as_bytes()) {
        return Some(0xFF4500FF);
    }
    if bytes_eq(b, "orchid".as_bytes()) {
        return Some(0xDA70D6FF);
    }
    if bytes_eq(b, "palegoldenrod".as_bytes()) {
        return Some(0xEEE8AAFF);
    }
    if bytes_eq(b, "palegreen".as_bytes()) {
        return Some(0x98FB98FF);
    }
    if bytes_eq(b, "paleturquoise".as_bytes()) {
        return Some(0xAFEEEEFF);
    }
    if bytes_eq(b, "palevioletred".as_bytes()) {
        return Some(0xDB7093FF);
    }
    if bytes_eq(b, "papayawhip".as_bytes()) {
        return Some(0xFFEFD5FF);
    }
    if bytes_eq(b, "peachpuff".as_bytes()) {
        return Some(0xFFDAB9FF);
    }
    if bytes_eq(b, "peru".as_bytes()) {
        return Some(0xCD853FFF);
    }
    if bytes_eq(b, "pink".as_bytes()) {
        return Some(0xFFC0CBFF);
    }
    if bytes_eq(b, "plum".as_bytes()) {
        return Some(0xDDA0DDFF);
    }
    if bytes_eq(b, "powderblue".as_bytes()) {
        return Some(0xB0E0E6FF);
    }
    if bytes_eq(b, "purple".as_bytes()) {
        return Some(0x800080FF);
    }
    if bytes_eq(b, "rebeccapurple".as_bytes()) {
        return Some(0x663399FF);
    }
    if bytes_eq(b, "red".as_bytes()) {
        return Some(0xFF0000FF);
    }
    if bytes_eq(b, "rosybrown".as_bytes()) {
        return Some(0xBC8F8FFF);
    }
    if bytes_eq(b, "royalblue".as_bytes()) {
        return Some(0x4169E1FF);
    }
    if bytes_eq(b, "saddlebrown".as_bytes()) {
        return Some(0x8B4513FF);
    }
    if bytes_eq(b, "salmon".as_bytes()) {
        return Some(0xFA8072FF);
    }
    if bytes_eq(b, "sandybrown".as_bytes()) {
        return Some(0xF4A460FF);
    }
    if bytes_eq(b, "seagreen".as_bytes()) {
        return Some(0x2E8B57FF);
    }
    if bytes_eq(b, "seashell".as_bytes()) {
        return Some(0xFFF5EEFF);
    }
    if bytes_eq(b, "sienna".as_bytes()) {
        return Some(0xA0522DFF);
    }
    if bytes_eq(b, "silver".as_bytes()) {
        return Some(0xC0C0C0FF);
    }
    if bytes_eq(b, "skyblue".as_bytes()) {
        return Some(0x87CEEBFF);
    }
    if bytes_eq(b, "slateblue".as_bytes()) {
        return Some(0x6A5ACDFF);
    }
    if bytes_eq(b, "slategray".as_bytes()) {
        return Some(0x708090FF);
    }
    if bytes_eq(b, "slategrey".as_bytes()) {
        return Some(0x708090FF);
    }
    if bytes_eq(b, "snow".as_bytes()) {
        return Some(0xFFFAFAFF);
    }
    if bytes_eq(b, "springgreen".as_bytes()) {
        return Some(0x00FF7FFF);
    }
    if bytes_eq(b, "steelblue".as_bytes()) {
        return Some(0x4682B4FF);
    }
    if bytes_eq(b, "tan".as_bytes()) {
        return Some(0xD2B48CFF);
    }
    if bytes_eq(b, "teal".as_bytes()) {
        return Some(0x008080FF);
    }
    if bytes_eq(b, "thistle".as_bytes()) {
        return Some(0xD8BFD8FF);
    }
    if bytes_eq(b, "tomato".as_bytes()) {
        return Some(0xFF6347FF);
    }
    if bytes_eq(b, "transparent".as_bytes()) {
        return Some(0x00000000);
    }
    if bytes_eq(b, "turquoise".as_bytes()) {
        return Some(0x40E0D0FF);
    }
    if bytes_eq(b, "violet".as_bytes()) {
        return Some(0xEE82EEFF);
    }
    if bytes_eq(b, "wheat".as_bytes()) {
        return Some(0xF5DEB3FF);
    }
    if bytes_eq(b, "white".as_bytes()) {
        return Some(0xFFFFFFFF);
    }
    if bytes_eq(b, "whitesmoke".as_bytes()) {
        return Some(0xF5F5F5FF);
    }
    if bytes_eq(b, "yellow".as_bytes()) {
        return Some(0xFFFF00FF);
    }
    if bytes_eq(b, "yellowgreen".as_bytes()) {
        return Some(0x9ACD32FF);
    }
    None
}

} // verus!
