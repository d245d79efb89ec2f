use vstd::prelude::*;

use crate::cuenta::AccountId;
use crate::entidades::{paso_permitido, mismo_producto, Categoria, Orden, Producto, Publicacion, Rol, Usuario};

verus! {

/// The whole ledger: users in registration order, and the categories,
/// products, listings and orders, each at the index it was created with.
pub struct Sistema {
    pub(crate) usuarios: Vec<Usuario>,
    pub(crate) productos: Vec<Producto>,
    pub(crate) ordenes: Vec<Orden>,
    pub(crate) publicaciones: Vec<Publicacion>,
    pub(crate) categorias: Vec<Categoria>,
}

/// Whether a user with identity `id` is registered.
pub open spec fn registrado(us: Seq<Usuario>, id: AccountId) -> bool {
    exists|i: int| 0 <= i < us.len() && us[i].id == id
}

/// Whether the user with identity `id` is registered and holds `rol`.
pub open spec fn con_rol(us: Seq<Usuario>, id: AccountId, rol: Rol) -> bool {
    exists|i: int| 0 <= i < us.len() && us[i].id == id && us[i].roles@.contains(rol)
}

/// Whether some user has the contact address `mail`.
pub open spec fn mail_en_uso(us: Seq<Usuario>, mail: Seq<char>) -> bool {
    exists|i: int| 0 <= i < us.len() && us[i].mail@ == mail
}

/// Whether some category is stored under the name `nombre`.
pub open spec fn categoria_con_nombre(cs: Seq<Categoria>, nombre: Seq<char>) -> bool {
    exists|i: int| 0 <= i < cs.len() && cs[i].nombre@ == nombre
}

/// Whether some product has name `nombre` in category `categoria`.
pub open spec fn producto_repetido(ps: Seq<Producto>, nombre: Seq<char>, categoria: u32) -> bool {
    exists|i: int| 0 <= i < ps.len() && ps[i].nombre@ == nombre && ps[i].categoria == categoria
}

/// No two users share an identity or a contact address.
pub open spec fn usuarios_unicos(us: Seq<Usuario>) -> bool {
    forall|i: int, j: int|
        #![trigger us[i], us[j]]
        0 <= i < us.len() && 0 <= j < us.len() && i != j ==> us[i].id != us[j].id && us[i].mail@
            != us[j].mail@
}

/// No two categories share a name.
pub open spec fn nombres_unicos(cs: Seq<Categoria>) -> bool {
    forall|i: int, j: int|
        #![trigger cs[i], cs[j]]
        0 <= i < cs.len() && 0 <= j < cs.len() && i != j ==> cs[i].nombre@ != cs[j].nombre@
}

/// No two products share name and category.
pub open spec fn productos_unicos(ps: Seq<Producto>) -> bool {
    forall|i: int, j: int|
        #![trigger ps[i], ps[j]]
        0 <= i < ps.len() && 0 <= j < ps.len() && i != j ==> !mismo_producto(ps[i], ps[j])
}

/// Category indices fit in `u32` and each category sits at its own index.
pub open spec fn categorias_en_orden(cs: Seq<Categoria>) -> bool {
    &&& cs.len() <= u32::MAX
    &&& forall|i: int| 0 <= i < cs.len() ==> cs[i].id == i
}

/// Product indices fit in `u32`, each product sits at its own index and its
/// category exists.
pub open spec fn productos_en_orden(ps: Seq<Producto>, n_categorias: int) -> bool {
    &&& ps.len() <= u32::MAX
    &&& forall|i: int| 0 <= i < ps.len() ==> ps[i].id == i && ps[i].categoria < n_categorias
}

/// Listing indices fit in `u32`, each listing sits at its own index and its
/// product exists.
pub open spec fn publicaciones_en_orden(pubs: Seq<Publicacion>, n_productos: int) -> bool {
    &&& pubs.len() <= u32::MAX
    &&& forall|i: int|
        0 <= i < pubs.len() ==> pubs[i].id == i && pubs[i].id_prod < n_productos
}

/// Order indices fit in `u32`, each order sits at its own index and its
/// listing exists.
pub open spec fn ordenes_en_orden(os: Seq<Orden>, n_publicaciones: int) -> bool {
    &&& os.len() <= u32::MAX
    &&& forall|i: int|
        0 <= i < os.len() ==> os[i].id == i && os[i].id_publicacion < n_publicaciones
}

/// The ledger's invariant over its five collections: identities and contact
/// addresses are unique, so are category names and (name, category) pairs
/// of products; every record sits at the index it names; every reference
/// resolves.
pub open spec fn partes_validas(
    us: Seq<Usuario>,
    cs: Seq<Categoria>,
    ps: Seq<Producto>,
    pubs: Seq<Publicacion>,
    os: Seq<Orden>,
) -> bool {
    &&& usuarios_unicos(us)
    &&& categorias_en_orden(cs)
    &&& nombres_unicos(cs)
    &&& productos_en_orden(ps, cs.len() as int)
    &&& productos_unicos(ps)
    &&& publicaciones_en_orden(pubs, ps.len() as int)
    &&& ordenes_en_orden(os, pubs.len() as int)
}

/// Each order keeps its state or makes one move of its life cycle; orders
/// are only ever added.
pub open spec fn estados_avanzan(antes: Seq<Orden>, despues: Seq<Orden>) -> bool {
    &&& antes.len() <= despues.len()
    &&& forall|i: int|
        #![trigger despues[i]]
        0 <= i < antes.len() ==> {
            let (a, d) = (antes[i], despues[i]);
            &&& d == (Orden { status: d.status, ..a })
            &&& (d.status == a.status || paso_permitido(a.status, d.status))
        }
}

impl Sistema {
    /// Users, in registration order.
    pub open(crate) spec fn usuarios_v(&self) -> Seq<Usuario> {
        self.usuarios@
    }

    /// Categories, by index.
    pub open(crate) spec fn categorias_v(&self) -> Seq<Categoria> {
        self.categorias@
    }

    /// Products, by index.
    pub open(crate) spec fn productos_v(&self) -> Seq<Producto> {
        self.productos@
    }

    /// Listings, by index.
    pub open(crate) spec fn publicaciones_v(&self) -> Seq<Publicacion> {
        self.publicaciones@
    }

    /// Orders, by index.
    pub open(crate) spec fn ordenes_v(&self) -> Seq<Orden> {
        self.ordenes@
    }

    /// The ledger's invariant, over its own collections.
    pub open(crate) spec fn wf(&self) -> bool {
        partes_validas(
            self.usuarios@,
            self.categorias@,
            self.productos@,
            self.publicaciones@,
            self.ordenes@,
        )
    }

    /// An empty ledger.
    pub fn new() -> (r: Sistema)
        ensures
            r.wf(),
            r.usuarios_v() == Seq::<Usuario>::empty(),
            r.categorias_v() == Seq::<Categoria>::empty(),
            r.productos_v() == Seq::<Producto>::empty(),
            r.publicaciones_v() == Seq::<Publicacion>::empty(),
            r.ordenes_v() == Seq::<Orden>::empty(),
    {
        Sistema {
            usuarios: Vec::new(),
            productos: Vec::new(),
            ordenes: Vec::new(),
            publicaciones: Vec::new(),
            categorias: Vec::new(),
        }
    }

    /// With identities unique, the user found at `i` is the only one that
    /// `con_rol` can speak of.
    pub(crate) proof fn lema_rol_de(&self, i: int, id: AccountId, rol: Rol)
        requires
            self.wf(),
            0 <= i < self.usuarios@.len(),
            self.usuarios@[i].id == id,
        ensures
            con_rol(self.usuarios@, id, rol) == self.usuarios@[i].roles@.contains(rol),
    {
        if con_rol(self.usuarios@, id, rol) {
            let j = choose|j: int|
                0 <= j < self.usuarios@.len() && self.usuarios@[j].id == id
                    && self.usuarios@[j].roles@.contains(rol);
            assert(i == j);
        }
    }

    /// Where the user with identity `id` sits, if registered.
    pub(crate) fn indice_usuario(&self, id: &AccountId) -> (r: Option<usize>)
        ensures
            match r {
                Some(i) => i < self.usuarios@.len() && self.usuarios@[i as int].id == *id,
                None => !registrado(self.usuarios@, *id),
            },
    {
        let mut i: usize = 0;
        while i < self.usuarios.len()
            invariant
                0 <= i <= self.usuarios@.len(),
                forall|j: int| 0 <= j < i ==> self.usuarios@[j].id != *id,
            decreases self.usuarios@.len() - i,
        {
            if self.usuarios[i].id == *id {
                return Some(i);
            }
            i = i + 1;
        }
        None
    }
}

} // verus!
