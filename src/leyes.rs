use vstd::prelude::*;

use crate::entidades::{es_terminal, paso_permitido, EstadoOrden, Orden, Usuario};
use crate::normalizacion::{
    bytes_utf8,
    es_blanco,
    minusculas,
    normalizado,
    recortado,
    sin_blancos_finales,
    sin_blancos_iniciales,
    truncado,
    MAX_BYTES_NOMBRE,
};
use crate::sistema::{estados_avanzan, nombres_unicos, productos_unicos, usuarios_unicos, Sistema};

verus! {

/// In a well-formed ledger no two users share an identity or a contact
/// address, no two categories share a name, and no two products share both
/// name and category.
pub proof fn lema_unicidad(s: &Sistema)
    requires
        s.wf(),
    ensures
        usuarios_unicos(s.usuarios_v()),
        nombres_unicos(s.categorias_v()),
        productos_unicos(s.productos_v()),
{
}

/// Two listings of the users of one ledger state hold the same users, in the
/// same order: each listing matches the registration order entry by entry.
pub proof fn lema_listado_usuarios_estable(s: &Sistema, a: Seq<Usuario>, b: Seq<Usuario>)
    requires
        a.len() == s.usuarios_v().len(),
        b.len() == s.usuarios_v().len(),
        forall|i: int| 0 <= i < a.len() ==> a[i].igual(&s.usuarios_v()[i]),
        forall|i: int| 0 <= i < b.len() ==> b[i].igual(&s.usuarios_v()[i]),
    ensures
        forall|i: int| 0 <= i < a.len() ==> a[i].igual(&b[i]),
{
}

/// Over any operation of the ledger, an order that was Received or
/// Cancelled keeps that state.
pub proof fn lema_estado_terminal_fijo(antes: Seq<Orden>, despues: Seq<Orden>, i: int)
    requires
        estados_avanzan(antes, despues),
        0 <= i < antes.len(),
        es_terminal(antes[i].status),
    ensures
        despues[i] == antes[i],
{
    assert(despues[i] == (Orden { status: despues[i].status, ..antes[i] }));
}

/// Over any operation of the ledger, an order that changes state leaves a
/// non-terminal one: Shipped is reached only from Pending, and Received
/// only from Shipped.
pub proof fn lema_ciclo_de_vida(antes: Seq<Orden>, despues: Seq<Orden>, i: int)
    requires
        estados_avanzan(antes, despues),
        0 <= i < antes.len(),
        despues[i].status != antes[i].status,
    ensures
        !es_terminal(antes[i].status),
        despues[i].status == EstadoOrden::Enviada ==> antes[i].status == EstadoOrden::Pendiente,
        despues[i].status == EstadoOrden::Recibida ==> antes[i].status == EstadoOrden::Enviada,
        despues[i].status != EstadoOrden::Pendiente,
{
    assert(paso_permitido(antes[i].status, despues[i].status));
}

/// A truncated name fits in the byte limit.
pub proof fn lema_truncado_cabe(s: Seq<char>)
    ensures
        bytes_utf8(truncado(s)) <= MAX_BYTES_NOMBRE,
    decreases s.len(),
{
    if bytes_utf8(s) > MAX_BYTES_NOMBRE {
        assert(s.len() > 0);
        lema_truncado_cabe(s.drop_last());
    }
}

/// Truncating twice gives what truncating once gives.
pub proof fn lema_truncado_idempotente(s: Seq<char>)
    ensures
        truncado(truncado(s)) == truncado(s),
{
    lema_truncado_cabe(s);
}

proof fn lema_sin_iniciales_quita_todo(s: Seq<char>)
    ensures
        sin_blancos_iniciales(s).len() == 0 || !es_blanco(sin_blancos_iniciales(s)[0]),
        sin_blancos_iniciales(s).len() > 0 ==> sin_blancos_iniciales(s).last() == s.last()
            && sin_blancos_iniciales(s).len() <= s.len(),
    decreases s.len(),
{
    if s.len() > 0 && es_blanco(s[0]) {
        lema_sin_iniciales_quita_todo(s.drop_first());
    }
}

proof fn lema_sin_finales_quita_todo(s: Seq<char>)
    ensures
        sin_blancos_finales(s).len() == 0 || !es_blanco(sin_blancos_finales(s).last()),
        sin_blancos_finales(s).len() > 0 ==> sin_blancos_finales(s)[0] == s[0],
    decreases s.len(),
{
    if s.len() > 0 && es_blanco(s.last()) {
        lema_sin_finales_quita_todo(s.drop_last());
    }
}

/// Trimming leaves a text that starts and ends with something other than
/// white space.
pub proof fn lema_recortado_sin_bordes(s: Seq<char>)
    ensures
        recortado(s).len() == 0 || (!es_blanco(recortado(s)[0]) && !es_blanco(
            recortado(s).last(),
        )),
{
    lema_sin_iniciales_quita_todo(s);
    lema_sin_finales_quita_todo(sin_blancos_iniciales(s));
}

/// A text that neither starts nor ends with white space is its own trim.
pub proof fn lema_recortado_fijo(s: Seq<char>)
    requires
        s.len() == 0 || (!es_blanco(s[0]) && !es_blanco(s.last())),
    ensures
        recortado(s) == s,
{
}

/// Trimming twice gives what trimming once gives.
pub proof fn lema_recortado_idempotente(s: Seq<char>)
    ensures
        recortado(recortado(s)) == recortado(s),
{
    lema_recortado_sin_bordes(s);
    lema_recortado_fijo(recortado(s));
}

/// Normalizing a normal form gives it back, wherever lower-casing leaves
/// it as it is and the cut to the byte limit did not end it (or start it)
/// with white space: the trim and the cut then have nothing left to take.
pub proof fn lema_normalizacion_idempotente(s: Seq<char>)
    requires
        minusculas(normalizado(s)) == normalizado(s),
        normalizado(s).len() == 0 || (!es_blanco(normalizado(s)[0]) && !es_blanco(
            normalizado(s).last(),
        )),
    ensures
        normalizado(normalizado(s)) == normalizado(s),
{
    let n = normalizado(s);
    lema_recortado_fijo(n);
    lema_truncado_cabe(minusculas(recortado(s)));
}

} // verus!
