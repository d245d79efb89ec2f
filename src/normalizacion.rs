use vstd::prelude::*;
use vstd::string::*;

verus! {

/// Most bytes, in UTF-8, that a stored category name may take.
pub const MAX_BYTES_NOMBRE: usize = 100;

/// Characters with Unicode's White_Space property.
pub open spec fn es_blanco(c: char) -> bool {
    let v = c as u32;
    (0x09 <= v <= 0x0D) || v == 0x20 || v == 0x85 || v == 0xA0 || v == 0x1680 || (0x2000 <= v
        <= 0x200A) || v == 0x2028 || v == 0x2029 || v == 0x202F || v == 0x205F || v == 0x3000
}

/// `s` without its leading white space.
pub open spec fn sin_blancos_iniciales(s: Seq<char>) -> Seq<char>
    decreases s.len(),
{
    if s.len() > 0 && es_blanco(s[0]) {
        sin_blancos_iniciales(s.drop_first())
    } else {
        s
    }
}

/// `s` without its trailing white space.
pub open spec fn sin_blancos_finales(s: Seq<char>) -> Seq<char>
    decreases s.len(),
{
    if s.len() > 0 && es_blanco(s.last()) {
        sin_blancos_finales(s.drop_last())
    } else {
        s
    }
}

/// `s` without white space at either end.
pub open spec fn recortado(s: Seq<char>) -> Seq<char> {
    sin_blancos_finales(sin_blancos_iniciales(s))
}

/// What lower-casing a text gives, character by character and with the
/// context rules of Unicode's default case mapping.
pub uninterp spec fn minusculas(s: Seq<char>) -> Seq<char>;

/// Bytes that `c` takes in UTF-8.
pub open spec fn ancho_utf8(c: char) -> nat {
    let v = c as u32;
    if v < 0x80 {
        1
    } else if v < 0x800 {
        2
    } else if v < 0x10000 {
        3
    } else {
        4
    }
}

/// Bytes that `s` takes in UTF-8.
pub open spec fn bytes_utf8(s: Seq<char>) -> nat
    decreases s.len(),
{
    if s.len() == 0 {
        0
    } else {
        bytes_utf8(s.drop_last()) + ancho_utf8(s.last())
    }
}

/// The longest prefix of `s` that fits in `MAX_BYTES_NOMBRE` bytes: a cut on
/// a character boundary.
pub open spec fn truncado(s: Seq<char>) -> Seq<char>
    decreases s.len(),
{
    if bytes_utf8(s) <= MAX_BYTES_NOMBRE {
        s
    } else {
        truncado(s.drop_last())
    }
}

/// The canonical form of a category name: trimmed, lower-cased, then cut to
/// at most `MAX_BYTES_NOMBRE` bytes.
pub open spec fn normalizado(s: Seq<char>) -> Seq<char> {
    truncado(minusculas(recortado(s)))
}

/// Relies on `str::trim`: it drops the leading and trailing characters that
/// have the White_Space property.
#[verifier::external_body]
fn recortar(s: &str) -> (r: &str)
    ensures
        r@ == recortado(s@),
{
    s.trim()
}

/// Relies on `str::to_lowercase`: its result depends on the characters alone.
#[verifier::external_body]
fn a_minusculas(s: &str) -> (r: String)
    ensures
        r@ == minusculas(s@),
{
    s.to_lowercase()
}

/// Bytes that `c` takes in UTF-8.
pub fn ancho_de(c: char) -> (r: usize)
    ensures
        r == ancho_utf8(c),
{
    let v = c as u32;
    if v < 0x80 {
        1
    } else if v < 0x800 {
        2
    } else if v < 0x10000 {
        3
    } else {
        4
    }
}

proof fn lema_bytes_prefijo_crece(s: Seq<char>, i: int, j: int)
    requires
        0 <= i <= j <= s.len(),
    ensures
        bytes_utf8(s.subrange(0, i)) <= bytes_utf8(s.subrange(0, j)),
    decreases j - i,
{
    if i < j {
        lema_bytes_prefijo_crece(s, i, j - 1);
        assert(s.subrange(0, j).drop_last() =~= s.subrange(0, j - 1));
    }
}

proof fn lema_truncado_es_prefijo(s: Seq<char>, k: int)
    requires
        0 <= k <= s.len(),
        bytes_utf8(s.subrange(0, k)) <= MAX_BYTES_NOMBRE,
        k == s.len() || bytes_utf8(s.subrange(0, k + 1)) > MAX_BYTES_NOMBRE,
    ensures
        truncado(s) == s.subrange(0, k),
    decreases s.len(),
{
    assert(s.subrange(0, s.len() as int) =~= s);
    if bytes_utf8(s) <= MAX_BYTES_NOMBRE {
        if k < s.len() {
            lema_bytes_prefijo_crece(s, k + 1, s.len() as int);
        }
    } else {
        let t = s.drop_last();
        assert(t.subrange(0, k) =~= s.subrange(0, k));
        if k + 1 < s.len() {
            assert(t.subrange(0, k + 1) =~= s.subrange(0, k + 1));
        }
        lema_truncado_es_prefijo(t, k);
    }
}

/// Cuts `s` to its longest prefix of at most `MAX_BYTES_NOMBRE` bytes, on a
/// character boundary.
pub fn truncar_nombre(s: &str) -> (r: String)
    ensures
        r@ == truncado(s@),
{
    let n = s.unicode_len();
    let mut k: usize = 0;
    let mut total: usize = 0;
    while k < n && total + ancho_de(s.get_char(k)) <= MAX_BYTES_NOMBRE
        invariant
            n == s@.len(),
            0 <= k <= n,
            total == bytes_utf8(s@.subrange(0, k as int)),
            total <= MAX_BYTES_NOMBRE,
        decreases n - k,
    {
        proof {
            assert(s@.subrange(0, k + 1).drop_last() =~= s@.subrange(0, k as int));
        }
        total = total + ancho_de(s.get_char(k));
        k = k + 1;
    }
    proof {
        if k < n {
            assert(s@.subrange(0, k + 1).drop_last() =~= s@.subrange(0, k as int));
        }
        lema_truncado_es_prefijo(s@, k as int);
    }
    String::from_str(s.substring_char(0, k))
}

/// Normal form of a category name: trimmed, lower-cased and cut to
/// `MAX_BYTES_NOMBRE` bytes.
pub fn normalizar_nombre(nombre: &str) -> (r: String)
    ensures
        r@ == normalizado(nombre@),
{
    let recortado = recortar(nombre);
    let bajo = a_minusculas(recortado);
    truncar_nombre(bajo.as_str())
}

} // verus!
