use vstd::prelude::*;

use crate::cuenta::AccountId;
use crate::entidades::{mismo_producto, Categoria, Producto, Rol};
use crate::errores::ErroresContrato;
use crate::normalizacion::normalizado;
use crate::sistema::{categoria_con_nombre, con_rol, producto_repetido, registrado, Sistema};

verus! {

/// `actual - cantidad`, or nothing where that would go below zero.
pub fn checked_decrement(actual: u32, cantidad: u32) -> (r: Option<u32>)
    ensures
        r == (if cantidad <= actual {
            Some((actual - cantidad) as u32)
        } else {
            None
        }),
{
    actual.checked_sub(cantidad)
}

/// The index of the category stored under `nombre`, where there is one.
pub open spec fn indice_categoria(cs: Seq<Categoria>, nombre: Seq<char>) -> int {
    choose|c: int| 0 <= c < cs.len() && cs[c].nombre@ == nombre
}

impl Sistema {
    /// Whether some product has the same name and category as `p`.
    pub fn producto_existe(&self, p: &Producto) -> (r: bool)
        ensures
            r == exists|i: int|
                0 <= i < self.productos_v().len() && mismo_producto(self.productos_v()[i], *p),
    {
        let mut i: usize = 0;
        while i < self.productos.len()
            invariant
                0 <= i <= self.productos@.len(),
                forall|j: int| 0 <= j < i ==> !mismo_producto(self.productos@[j], *p),
            decreases self.productos@.len() - i,
        {
            if self.productos[i].eq(p) {
                assert(mismo_producto(self.productos_v()[i as int], *p));
                return true;
            }
            i = i + 1;
        }
        false
    }

    /// Takes `cantidad` units from the stock of product `id`.
    pub fn descontar_stock_producto(&mut self, id: u32, cantidad: u32) -> (r: Result<
        (),
        ErroresContrato,
    >)
        requires
            old(self).wf(),
        ensures
            final(self).wf(),
            final(self).usuarios_v() == old(self).usuarios_v(),
            final(self).categorias_v() == old(self).categorias_v(),
            final(self).publicaciones_v() == old(self).publicaciones_v(),
            final(self).ordenes_v() == old(self).ordenes_v(),
            id >= old(self).productos_v().len() ==> r == Err::<(), _>(
                ErroresContrato::ProductoInexistente,
            ),
            id < old(self).productos_v().len() && cantidad > old(self).productos_v()[id as int].stock
                ==> r == Err::<(), _>(ErroresContrato::StockProductoInsuficiente),
            r is Ok <==> id < old(self).productos_v().len() && cantidad <= old(
                self,
            ).productos_v()[id as int].stock,
            r is Err ==> final(self).productos_v() == old(self).productos_v(),
            r is Ok ==> final(self).productos_v() == old(self).productos_v().update(
                id as int,
                Producto {
                    stock: (old(self).productos_v()[id as int].stock - cantidad) as u32,
                    ..old(self).productos_v()[id as int]
                },
            ),
    {
        if id as usize >= self.productos.len() {
            return Err(ErroresContrato::ProductoInexistente);
        }
        let i = id as usize;
        let nuevo = match checked_decrement(self.productos[i].stock, cantidad) {
            Some(n) => n,
            None => return Err(ErroresContrato::StockProductoInsuficiente),
        };
        let mut producto = self.productos[i].copia();
        producto.stock = nuevo;
        let ghost antes = self.productos@;
        self.productos.set(i, producto);
        proof {
            assert(forall|j: int|
                0 <= j < antes.len() ==> self.productos@[j].id == antes[j].id
                    && self.productos@[j].categoria == antes[j].categoria
                    && self.productos@[j].nombre@ == antes[j].nombre@);
        }
        Ok(())
    }

    /// Registers a product of the seller `id_vendedor` in the category named
    /// `categoria` (compared in normal form); no other product may have the
    /// same name in that category, and an index must be left for it.
    pub fn _crear_producto(
        &mut self,
        id_vendedor: AccountId,
        nombre: String,
        descripcion: String,
        categoria: String,
        stock: u32,
    ) -> (r: Result<(), ErroresContrato>)
        requires
            old(self).wf(),
        ensures
            final(self).wf(),
            final(self).usuarios_v() == old(self).usuarios_v(),
            final(self).categorias_v() == old(self).categorias_v(),
            final(self).publicaciones_v() == old(self).publicaciones_v(),
            final(self).ordenes_v() == old(self).ordenes_v(),
            r is Err ==> final(self).productos_v() == old(self).productos_v(),
            ({
                let (us, cs, ps) = (
                    old(self).usuarios_v(),
                    old(self).categorias_v(),
                    old(self).productos_v(),
                );
                let n = normalizado(categoria@);
                let c = indice_categoria(cs, n);
                &&& !registrado(us, id_vendedor) ==> r == Err::<(), _>(
                    ErroresContrato::UsuarioNoExiste,
                )
                &&& registrado(us, id_vendedor) && !con_rol(us, id_vendedor, Rol::Vendedor) ==> r
                    == Err::<(), _>(ErroresContrato::UsuarioNoEsVendedor)
                &&& con_rol(us, id_vendedor, Rol::Vendedor) && n.len() == 0 ==> r == Err::<(), _>(
                    ErroresContrato::NombreCategoriaVacio,
                )
                &&& con_rol(us, id_vendedor, Rol::Vendedor) && n.len() > 0 && !categoria_con_nombre(
                    cs,
                    n,
                ) ==> r == Err::<(), _>(ErroresContrato::CategoriaInexistente)
                &&& con_rol(us, id_vendedor, Rol::Vendedor) && n.len() > 0 && categoria_con_nombre(
                    cs,
                    n,
                ) && producto_repetido(ps, nombre@, c as u32) ==> r == Err::<(), _>(
                    ErroresContrato::ProductoYaExistente,
                )
                &&& con_rol(us, id_vendedor, Rol::Vendedor) && n.len() > 0 && categoria_con_nombre(
                    cs,
                    n,
                ) && !producto_repetido(ps, nombre@, c as u32) && ps.len() == u32::MAX ==> r
                    == Err::<(), _>(ErroresContrato::IndiceInvalido)
                &&& r is Ok <==> con_rol(us, id_vendedor, Rol::Vendedor) && n.len() > 0
                    && categoria_con_nombre(cs, n) && !producto_repetido(ps, nombre@, c as u32)
                    && ps.len() < u32::MAX
                &&& r is Ok ==> final(self).productos_v() == ps.push(
                    Producto {
                        id: ps.len() as u32,
                        id_vendedor,
                        nombre,
                        descripcion,
                        categoria: c as u32,
                        stock,
                    },
                )
            }),
    {
        let iu = match self.indice_usuario(&id_vendedor) {
            Some(i) => i,
            None => return Err(ErroresContrato::UsuarioNoExiste),
        };
        proof {
            self.lema_rol_de(iu as int, id_vendedor, Rol::Vendedor);
        }
        if !self.usuarios[iu].has_role(Rol::Vendedor) {
            return Err(ErroresContrato::UsuarioNoEsVendedor);
        }
        let id_cat = self.get_categoria_by_name(&categoria)?;
        proof {
            let n = normalizado(categoria@);
            let c = indice_categoria(self.categorias@, n);
            assert(self.categorias@[id_cat as int].nombre@ == n);
            assert(c == id_cat);
        }
        let id = self.productos.len();
        let producto = Producto::new(id as u32, id_vendedor, nombre, descripcion, id_cat, stock);
        if self.producto_existe(&producto) {
            return Err(ErroresContrato::ProductoYaExistente);
        }
        if id == u32::MAX as usize {
            return Err(ErroresContrato::IndiceInvalido);
        }
        let ghost antes = self.productos@;
        self.productos.push(producto);
        proof {
            assert(forall|j: int|
                0 <= j < antes.len() ==> self.productos@[j] == antes[j] && !mismo_producto(
                    antes[j],
                    self.productos@.last(),
                ));
        }
        Ok(())
    }

    /// Copies of all products, by index.
    pub fn _listar_productos(&self) -> (r: Vec<Producto>)
        ensures
            r@ == self.productos_v(),
    {
        let mut resultado: Vec<Producto> = Vec::new();
        let mut i: usize = 0;
        while i < self.productos.len()
            invariant
                0 <= i <= self.productos@.len(),
                resultado@ == self.productos@.subrange(0, i as int),
            decreases self.productos@.len() - i,
        {
            resultado.push(self.productos[i].copia());
            i = i + 1;
            proof {
                assert(resultado@ =~= self.productos@.subrange(0, i as int));
            }
        }
        proof {
            assert(resultado@ =~= self.productos@);
        }
        resultado
    }
}

} // verus!
