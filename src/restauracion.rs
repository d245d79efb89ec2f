use vstd::prelude::*;

use crate::entidades::{mismo_producto, Categoria, Orden, Producto, Publicacion, Usuario};
use crate::sistema::{
    categorias_en_orden,
    nombres_unicos,
    ordenes_en_orden,
    partes_validas,
    productos_en_orden,
    productos_unicos,
    publicaciones_en_orden,
    usuarios_unicos,
    Sistema,
};

verus! {

fn usuarios_son_unicos(us: &Vec<Usuario>) -> (r: bool)
    ensures
        r == usuarios_unicos(us@),
{
    let n = us.len();
    let mut i: usize = 0;
    while i < n
        invariant
            n == us@.len(),
            0 <= i <= n,
            forall|a: int, b: int|
                0 <= a < i && a < b < n ==> us@[a].id != us@[b].id && us@[a].mail@ != us@[b].mail@,
        decreases n - i,
    {
        let mut j: usize = i + 1;
        while j < n
            invariant
                n == us@.len(),
                0 <= i < n,
                i + 1 <= j <= n,
                forall|a: int, b: int|
                    0 <= a < i && a < b < n ==> us@[a].id != us@[b].id && us@[a].mail@
                        != us@[b].mail@,
                forall|b: int|
                    i < b < j ==> us@[i as int].id != us@[b].id && us@[i as int].mail@
                        != us@[b].mail@,
            decreases n - j,
        {
            if us[i].id == us[j].id || us[i].mail == us[j].mail {
                assert(!(us@[i as int].id != us@[j as int].id && us@[i as int].mail@
                    != us@[j as int].mail@));
                return false;
            }
            j = j + 1;
        }
        i = i + 1;
    }
    assert forall|a: int, b: int|
        #![trigger us@[a], us@[b]]
        0 <= a < n && 0 <= b < n && a != b implies us@[a].id != us@[b].id && us@[a].mail@
            != us@[b].mail@ by {
        if b < a {
            assert(us@[b].id != us@[a].id && us@[b].mail@ != us@[a].mail@);
        }
    }
    true
}

fn nombres_son_unicos(cs: &Vec<Categoria>) -> (r: bool)
    ensures
        r == nombres_unicos(cs@),
{
    let n = cs.len();
    let mut i: usize = 0;
    while i < n
        invariant
            n == cs@.len(),
            0 <= i <= n,
            forall|a: int, b: int| 0 <= a < i && a < b < n ==> cs@[a].nombre@ != cs@[b].nombre@,
        decreases n - i,
    {
        let mut j: usize = i + 1;
        while j < n
            invariant
                n == cs@.len(),
                0 <= i < n,
                i + 1 <= j <= n,
                forall|a: int, b: int|
                    0 <= a < i && a < b < n ==> cs@[a].nombre@ != cs@[b].nombre@,
                forall|b: int| i < b < j ==> cs@[i as int].nombre@ != cs@[b].nombre@,
            decreases n - j,
        {
            if cs[i].nombre == cs[j].nombre {
                assert(!(cs@[i as int].nombre@ != cs@[j as int].nombre@));
                return false;
            }
            j = j + 1;
        }
        i = i + 1;
    }
    assert forall|a: int, b: int|
        #![trigger cs@[a], cs@[b]]
        0 <= a < n && 0 <= b < n && a != b implies cs@[a].nombre@ != cs@[b].nombre@ by {
        if b < a {
            assert(cs@[b].nombre@ != cs@[a].nombre@);
        }
    }
    true
}

fn productos_son_unicos(ps: &Vec<Producto>) -> (r: bool)
    ensures
        r == productos_unicos(ps@),
{
    let n = ps.len();
    let mut i: usize = 0;
    while i < n
        invariant
            n == ps@.len(),
            0 <= i <= n,
            forall|a: int, b: int| 0 <= a < i && a < b < n ==> !mismo_producto(ps@[a], ps@[b]),
        decreases n - i,
    {
        let mut j: usize = i + 1;
        while j < n
            invariant
                n == ps@.len(),
                0 <= i < n,
                i + 1 <= j <= n,
                forall|a: int, b: int|
                    0 <= a < i && a < b < n ==> !mismo_producto(ps@[a], ps@[b]),
                forall|b: int| i < b < j ==> !mismo_producto(ps@[i as int], ps@[b]),
            decreases n - j,
        {
            if ps[i].eq(&ps[j]) {
                return false;
            }
            j = j + 1;
        }
        i = i + 1;
    }
    assert forall|a: int, b: int|
        #![trigger ps@[a], ps@[b]]
        0 <= a < n && 0 <= b < n && a != b implies !mismo_producto(ps@[a], ps@[b]) by {
        if b < a {
            assert(!mismo_producto(ps@[b], ps@[a]));
        }
    }
    true
}

fn categorias_ordenadas(cs: &Vec<Categoria>) -> (r: bool)
    ensures
        r == categorias_en_orden(cs@),
{
    if cs.len() > u32::MAX as usize {
        return false;
    }
    let mut i: usize = 0;
    while i < cs.len()
        invariant
            0 <= i <= cs@.len(),
            forall|a: int| 0 <= a < i ==> cs@[a].id == a,
        decreases cs@.len() - i,
    {
        if cs[i].id as usize != i {
            return false;
        }
        i = i + 1;
    }
    true
}

fn productos_ordenados(ps: &Vec<Producto>, n_categorias: usize) -> (r: bool)
    ensures
        r == productos_en_orden(ps@, n_categorias as int),
{
    if ps.len() > u32::MAX as usize {
        return false;
    }
    let mut i: usize = 0;
    while i < ps.len()
        invariant
            0 <= i <= ps@.len(),
            forall|a: int| 0 <= a < i ==> ps@[a].id == a && ps@[a].categoria < n_categorias,
        decreases ps@.len() - i,
    {
        if ps[i].id as usize != i || ps[i].categoria as usize >= n_categorias {
            return false;
        }
        i = i + 1;
    }
    true
}

fn publicaciones_ordenadas(pubs: &Vec<Publicacion>, n_productos: usize) -> (r: bool)
    ensures
        r == publicaciones_en_orden(pubs@, n_productos as int),
{
    if pubs.len() > u32::MAX as usize {
        return false;
    }
    let mut i: usize = 0;
    while i < pubs.len()
        invariant
            0 <= i <= pubs@.len(),
            forall|a: int| 0 <= a < i ==> pubs@[a].id == a && pubs@[a].id_prod < n_productos,
        decreases pubs@.len() - i,
    {
        if pubs[i].id as usize != i || pubs[i].id_prod as usize >= n_productos {
            return false;
        }
        i = i + 1;
    }
    true
}

fn ordenes_ordenadas(os: &Vec<Orden>, n_publicaciones: usize) -> (r: bool)
    ensures
        r == ordenes_en_orden(os@, n_publicaciones as int),
{
    if os.len() > u32::MAX as usize {
        return false;
    }
    let mut i: usize = 0;
    while i < os.len()
        invariant
            0 <= i <= os@.len(),
            forall|a: int|
                0 <= a < i ==> os@[a].id == a && os@[a].id_publicacion < n_publicaciones,
        decreases os@.len() - i,
    {
        if os[i].id as usize != i || os[i].id_publicacion as usize >= n_publicaciones {
            return false;
        }
        i = i + 1;
    }
    true
}

impl Sistema {
    /// Rebuilds a ledger from its five collections, as a store hands them
    /// back; nothing comes back where they break the ledger's invariant.
    pub fn desde_partes(
        usuarios: Vec<Usuario>,
        categorias: Vec<Categoria>,
        productos: Vec<Producto>,
        publicaciones: Vec<Publicacion>,
        ordenes: Vec<Orden>,
    ) -> (r: Option<Sistema>)
        ensures
            r is Some <==> partes_validas(
                usuarios@,
                categorias@,
                productos@,
                publicaciones@,
                ordenes@,
            ),
            r matches Some(s) ==> {
                &&& s.wf()
                &&& s.usuarios_v() == usuarios@
                &&& s.categorias_v() == categorias@
                &&& s.productos_v() == productos@
                &&& s.publicaciones_v() == publicaciones@
                &&& s.ordenes_v() == ordenes@
            },
    {
        let validas = usuarios_son_unicos(&usuarios) && categorias_ordenadas(&categorias)
            && nombres_son_unicos(&categorias) && productos_ordenados(&productos, categorias.len())
            && productos_son_unicos(&productos) && publicaciones_ordenadas(
            &publicaciones,
            productos.len(),
        ) && ordenes_ordenadas(&ordenes, publicaciones.len());
        if validas {
            Some(Sistema { usuarios, productos, ordenes, publicaciones, categorias })
        } else {
            None
        }
    }

    /// Hands the five collections over to a store, the inverse of
    /// `desde_partes`.
    pub fn en_partes(self) -> (r: (
        Vec<Usuario>,
        Vec<Categoria>,
        Vec<Producto>,
        Vec<Publicacion>,
        Vec<Orden>,
    ))
        requires
            self.wf(),
        ensures
            partes_validas(r.0@, r.1@, r.2@, r.3@, r.4@),
            r.0@ == self.usuarios_v(),
            r.1@ == self.categorias_v(),
            r.2@ == self.productos_v(),
            r.3@ == self.publicaciones_v(),
            r.4@ == self.ordenes_v(),
    {
        (self.usuarios, self.categorias, self.productos, self.publicaciones, self.ordenes)
    }
}

} // verus!
