use vstd::prelude::*;

use crate::cuenta::{AccountId, Balance};

verus! {

/// Roles a user may hold; a user may hold both.
#[derive(Clone, Copy, Debug, PartialEq, Eq, Structural)]
pub enum Rol {
    Comprador,
    Vendedor,
}

/// Ratings of a user, as buyer and as seller: (number of sales, sum of
/// the marks received).
#[derive(Clone, Copy, Debug)]
pub struct Rating {
    pub calificacion_comprador: (u32, u32),
    pub calificacion_vendedor: (u32, u32),
}

impl Rating {
    /// A rating with no marks yet.
    pub fn new() -> (r: Rating)
        ensures
            r.calificacion_comprador == (0u32, 0u32),
            r.calificacion_vendedor == (0u32, 0u32),
    {
        Rating { calificacion_comprador: (0, 0), calificacion_vendedor: (0, 0) }
    }
}

/// A registered account.
#[derive(Clone, Debug)]
pub struct Usuario {
    pub id: AccountId,
    pub nombre: String,
    pub mail: String,
    pub rating: Rating,
    pub roles: Vec<Rol>,
}

impl Usuario {
    /// Whether `o` holds the same data as `self`.
    pub open spec fn igual(&self, o: &Usuario) -> bool {
        &&& self.id == o.id
        &&& self.nombre == o.nombre
        &&& self.mail == o.mail
        &&& self.rating == o.rating
        &&& self.roles@ == o.roles@
    }

    /// A new user, with no roles yet.
    pub fn new(id: AccountId, nombre: String, mail: String) -> (r: Usuario)
        ensures
            r.id == id,
            r.nombre == nombre,
            r.mail == mail,
            r.rating == (Rating { calificacion_comprador: (0, 0), calificacion_vendedor: (0, 0) }),
            r.roles@ == Seq::<Rol>::empty(),
    {
        Usuario { id, nombre, mail, rating: Rating::new(), roles: Vec::new() }
    }

    /// Whether the user holds `rol`.
    pub fn has_role(&self, rol: Rol) -> (r: bool)
        ensures
            r == self.roles@.contains(rol),
    {
        let mut i: usize = 0;
        while i < self.roles.len()
            invariant
                0 <= i <= self.roles@.len(),
                forall|j: int| 0 <= j < i ==> self.roles@[j] != rol,
            decreases self.roles@.len() - i,
        {
            if self.roles[i] == rol {
                return true;
            }
            i = i + 1;
        }
        false
    }

    /// The user's display name.
    pub fn get_name(&self) -> (r: String)
        ensures
            r == self.nombre,
    {
        self.nombre.clone()
    }

    /// The user's contact address.
    pub fn get_mail(&self) -> (r: String)
        ensures
            r == self.mail,
    {
        self.mail.clone()
    }

    /// The user's identity.
    pub fn get_id(&self) -> (r: AccountId)
        ensures
            r == self.id,
    {
        self.id
    }

    /// An independent copy of the user.
    pub fn copia(&self) -> (r: Usuario)
        ensures
            r.igual(self),
    {
        let mut roles: Vec<Rol> = Vec::new();
        let mut i: usize = 0;
        while i < self.roles.len()
            invariant
                0 <= i <= self.roles@.len(),
                roles@ == self.roles@.subrange(0, i as int),
            decreases self.roles@.len() - i,
        {
            roles.push(self.roles[i]);
            i = i + 1;
            proof {
                assert(roles@ =~= self.roles@.subrange(0, i as int));
            }
        }
        proof {
            assert(roles@ =~= self.roles@);
        }
        Usuario {
            id: self.id,
            nombre: self.nombre.clone(),
            mail: self.mail.clone(),
            rating: self.rating,
            roles,
        }
    }
}

/// A product category; its name is stored in normal form.
#[derive(Clone, Debug)]
pub struct Categoria {
    pub id: u32,
    pub nombre: String,
}

impl Categoria {
    /// A category with the given index and name.
    pub fn new(id: u32, nombre: String) -> (r: Categoria)
        ensures
            r.id == id,
            r.nombre == nombre,
    {
        Categoria { id, nombre }
    }

    /// An independent copy of the category.
    pub fn copia(&self) -> (r: Categoria)
        ensures
            r == *self,
    {
        Categoria { id: self.id, nombre: self.nombre.clone() }
    }
}

/// A stock-bearing item that a seller offers.
#[derive(Clone, Debug, PartialEq)]
pub struct Producto {
    pub id: u32,
    pub id_vendedor: AccountId,
    pub nombre: String,
    pub descripcion: String,
    pub categoria: u32,
    pub stock: u32,
}

/// Two products are the same item when they share name and category.
pub open spec fn mismo_producto(a: Producto, b: Producto) -> bool {
    a.nombre@ == b.nombre@ && a.categoria == b.categoria
}

impl Producto {
    /// A product with the given fields.
    pub fn new(
        id: u32,
        id_vendedor: AccountId,
        nombre: String,
        descripcion: String,
        categoria: u32,
        stock: u32,
    ) -> (r: Producto)
        ensures
            r == (Producto { id, id_vendedor, nombre, descripcion, categoria, stock }),
    {
        Producto { id, id_vendedor, nombre, descripcion, categoria, stock }
    }

    /// Whether `p` is the same item: same name and same category, whatever
    /// the other fields hold.
    pub fn eq(&self, p: &Producto) -> (r: bool)
        ensures
            r == mismo_producto(*self, *p),
    {
        self.nombre == p.nombre && self.categoria == p.categoria
    }

    /// An independent copy of the product.
    pub fn copia(&self) -> (r: Producto)
        ensures
            r == *self,
    {
        Producto {
            id: self.id,
            id_vendedor: self.id_vendedor,
            nombre: self.nombre.clone(),
            descripcion: self.descripcion.clone(),
            categoria: self.categoria,
            stock: self.stock,
        }
    }
}

/// An offer to sell part of a product's stock at a unit price.
#[derive(Clone, Copy, Debug, PartialEq)]
pub struct Publicacion {
    pub id: u32,
    pub id_prod: u32,
    pub id_user: AccountId,
    pub stock: u32,
    pub precio_unitario: Balance,
    pub activa: bool,
}

impl Publicacion {
    /// What is left to sell.
    pub fn stock(&self) -> (r: u32)
        ensures
            r == self.stock,
    {
        self.stock
    }

    /// An active listing with the given fields.
    pub fn new(
        id: u32,
        id_producto: u32,
        id_user: AccountId,
        stock: u32,
        precio_unitario: Balance,
    ) -> (r: Publicacion)
        ensures
            r == (Publicacion {
                id,
                id_prod: id_producto,
                id_user,
                stock,
                precio_unitario,
                activa: true,
            }),
    {
        Publicacion { id, id_prod: id_producto, id_user, stock, precio_unitario, activa: true }
    }
}

/// Where an order stands.
#[derive(Clone, Copy, Debug, PartialEq, Eq, Structural)]
pub enum EstadoOrden {
    Pendiente,
    Enviada,
    Recibida,
    Cancelada,
}

/// The states an order never leaves.
pub open spec fn es_terminal(e: EstadoOrden) -> bool {
    e == EstadoOrden::Recibida || e == EstadoOrden::Cancelada
}

/// The moves of the order life cycle: Pending to Shipped, Shipped to
/// Received, and Pending or Shipped to Cancelled.
pub open spec fn paso_permitido(antes: EstadoOrden, despues: EstadoOrden) -> bool {
    ||| antes == EstadoOrden::Pendiente && despues == EstadoOrden::Enviada
    ||| antes == EstadoOrden::Enviada && despues == EstadoOrden::Recibida
    ||| (antes == EstadoOrden::Pendiente || antes == EstadoOrden::Enviada) && despues
        == EstadoOrden::Cancelada
}

/// A buyer's purchase against a listing.
#[derive(Clone, Copy, Debug, PartialEq)]
pub struct Orden {
    pub id: u32,
    pub id_publicacion: u32,
    pub id_vendedor: AccountId,
    pub id_comprador: AccountId,
    pub status: EstadoOrden,
    pub cantidad: u32,
    pub precio_total: Balance,
    pub cal_vendedor: Option<u8>,
    pub cal_comprador: Option<u8>,
}

impl Orden {
    /// A pending order with no ratings yet.
    pub fn new(
        id: u32,
        id_publicacion: u32,
        id_vendedor: AccountId,
        id_comprador: AccountId,
        cantidad: u32,
        precio_total: Balance,
    ) -> (r: Orden)
        ensures
            r == (Orden {
                id,
                id_publicacion,
                id_vendedor,
                id_comprador,
                status: EstadoOrden::Pendiente,
                cantidad,
                precio_total,
                cal_vendedor: None,
                cal_comprador: None,
            }),
    {
        Orden {
            id,
            id_publicacion,
            id_vendedor,
            id_comprador,
            status: EstadoOrden::Pendiente,
            cantidad,
            precio_total,
            cal_vendedor: None,
            cal_comprador: None,
        }
    }

    /// Quantity bought.
    pub fn get_cantidad(&self) -> (r: u32)
        ensures
            r == self.cantidad,
    {
        self.cantidad
    }

    /// Where the order stands.
    pub fn get_status(&self) -> (r: EstadoOrden)
        ensures
            r == self.status,
    {
        self.status
    }
}

} // verus!
