use vstd::prelude::*;

verus! {

/// A fixed-point amount kept as an integer part and a fractional part.
#[derive(Clone, Copy, Debug)]
pub struct Decimal {
    pub entero: u32,
    pub decimal: u32,
}

/// Number of decimal digits of `n`; zero has none.
pub open spec fn digitos(n: nat) -> nat
    decreases n,
{
    if n == 0 {
        0
    } else {
        1 + digitos(n / 10)
    }
}

/// What `mult` gives: both parts are multiplied; where the fractional part
/// gains digits, the surplus above ten times its former digit count moves
/// into the integer part.
pub open spec fn mult_spec(d: Decimal, m: u32) -> (int, int) {
    let e = d.entero * m;
    let f = d.decimal * m;
    let base = (digitos(d.decimal as nat) * 10) as int;
    if digitos(f as nat) > digitos(d.decimal as nat) {
        (e + f / base, f % base)
    } else {
        (e, f)
    }
}

/// `mult` stays within `u32` on these inputs.
pub open spec fn mult_cabe(d: Decimal, m: u32) -> bool {
    &&& d.entero * m <= u32::MAX
    &&& d.decimal * m <= u32::MAX
    &&& mult_spec(d, m).0 <= u32::MAX
}

proof fn lema_digitos_cota(n: nat)
    ensures
        digitos(n) <= n,
    decreases n,
{
    if n > 0 {
        lema_digitos_cota(n / 10);
    }
}

/// Ten to the power `k`.
pub open spec fn pot10(k: nat) -> nat
    decreases k,
{
    if k == 0 {
        1
    } else {
        10 * pot10((k - 1) as nat)
    }
}

proof fn lema_digitos_pot(n: nat, k: nat)
    requires
        n < pot10(k),
    ensures
        digitos(n) <= k,
    decreases k,
{
    if k > 0 && n > 0 {
        lema_digitos_pot(n / 10, (k - 1) as nat);
    }
}

proof fn lema_digitos_u32(n: u32)
    ensures
        digitos(n as nat) <= 10,
{
    reveal_with_fuel(pot10, 11);
    assert(pot10(10) == 10000000000nat);
    lema_digitos_pot(n as nat, 10);
}

/// Number of decimal digits of `n`.
fn length(n: u32) -> (r: u32)
    ensures
        r == digitos(n as nat),
{
    let mut resto = n;
    let mut c: u32 = 0;
    proof {
        lema_digitos_cota(n as nat);
    }
    while resto != 0
        invariant
            c + digitos(resto as nat) == digitos(n as nat),
            digitos(n as nat) <= n,
        decreases resto,
    {
        resto = resto / 10;
        c = c + 1;
    }
    c
}

impl Decimal {
    /// The amount multiplied by `multiplicador`.
    pub fn mult(&self, multiplicador: u32) -> (r: Decimal)
        requires
            mult_cabe(*self, multiplicador),
        ensures
            r.entero == mult_spec(*self, multiplicador).0,
            r.decimal == mult_spec(*self, multiplicador).1,
    {
        let mut entero: u32 = self.entero * multiplicador;
        let mut decimal: u32 = self.decimal * multiplicador;
        let largo = length(self.decimal);
        if length(decimal) > largo {
            proof {
                if self.decimal == 0 {
                    assert(decimal == 0) by (nonlinear_arith)
                        requires
                            decimal == self.decimal * multiplicador,
                            self.decimal == 0,
                    ;
                }
                lema_digitos_cota(self.decimal as nat);
                lema_digitos_u32(self.decimal);
            }
            let base: u32 = largo * 10;
            entero = entero + decimal / base;
            decimal = decimal % base;
        }
        Decimal { entero, decimal }
    }
}

} // verus!
