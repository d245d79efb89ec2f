use vstd::prelude::*;

use crate::cuenta::{AccountId, Balance};
use crate::entidades::{Producto, Publicacion, Rol};
use crate::errores::ErroresContrato;
use crate::gestion_productos::checked_decrement;
use crate::sistema::{con_rol, registrado, Sistema};

verus! {

impl Sistema {
    /// Offers `stock` units of product `id_producto` at `precio` each; those
    /// units leave the product's stock at once. An index must be left for
    /// the listing.
    pub fn _crear_publicacion(
        &mut self,
        id_producto: u32,
        id_usuario: AccountId,
        stock: u32,
        precio: Balance,
    ) -> (r: Result<(), ErroresContrato>)
        requires
            old(self).wf(),
        ensures
            final(self).wf(),
            final(self).usuarios_v() == old(self).usuarios_v(),
            final(self).categorias_v() == old(self).categorias_v(),
            final(self).ordenes_v() == old(self).ordenes_v(),
            r is Err ==> final(self).productos_v() == old(self).productos_v(),
            r is Err ==> final(self).publicaciones_v() == old(self).publicaciones_v(),
            ({
                let (us, ps, pubs) = (
                    old(self).usuarios_v(),
                    old(self).productos_v(),
                    old(self).publicaciones_v(),
                );
                let vendedor = con_rol(us, id_usuario, Rol::Vendedor);
                &&& !registrado(us, id_usuario) ==> r == Err::<(), _>(
                    ErroresContrato::UsuarioNoExiste,
                )
                &&& registrado(us, id_usuario) && !vendedor ==> r == Err::<(), _>(
                    ErroresContrato::RolNoApropiado,
                )
                &&& vendedor && id_producto >= ps.len() ==> r == Err::<(), _>(
                    ErroresContrato::ProductoInexistente,
                )
                &&& vendedor && id_producto < ps.len() && stock > ps[id_producto as int].stock ==> r
                    == Err::<(), _>(ErroresContrato::StockProductoInsuficiente)
                &&& vendedor && id_producto < ps.len() && stock <= ps[id_producto as int].stock
                    && pubs.len() == u32::MAX ==> r == Err::<(), _>(ErroresContrato::IndiceInvalido)
                &&& r is Ok <==> vendedor && id_producto < ps.len() && stock <= ps[id_producto as int].stock
                    && pubs.len() < u32::MAX
                &&& r is Ok ==> final(self).productos_v() == ps.update(
                    id_producto as int,
                    Producto {
                        stock: (ps[id_producto as int].stock - stock) as u32,
                        ..ps[id_producto as int]
                    },
                )
                &&& r is Ok ==> final(self).publicaciones_v() == pubs.push(
                    Publicacion {
                        id: pubs.len() as u32,
                        id_prod: id_producto,
                        id_user: id_usuario,
                        stock,
                        precio_unitario: precio,
                        activa: true,
                    },
                )
            }),
    {
        let iu = match self.indice_usuario(&id_usuario) {
            Some(i) => i,
            None => return Err(ErroresContrato::UsuarioNoExiste),
        };
        proof {
            self.lema_rol_de(iu as int, id_usuario, Rol::Vendedor);
        }
        if !self.usuarios[iu].has_role(Rol::Vendedor) {
            return Err(ErroresContrato::RolNoApropiado);
        }
        if id_producto as usize >= self.productos.len() {
            return Err(ErroresContrato::ProductoInexistente);
        }
        if stock > self.productos[id_producto as usize].stock {
            return Err(ErroresContrato::StockProductoInsuficiente);
        }
        let id = self.publicaciones.len();
        if id == u32::MAX as usize {
            return Err(ErroresContrato::IndiceInvalido);
        }
        match self.descontar_stock_producto(id_producto, stock) {
            Ok(()) => {},
            Err(e) => return Err(e),
        }
        self.publicaciones.push(Publicacion::new(id as u32, id_producto, id_usuario, stock, precio));
        Ok(())
    }

    /// Takes `cantidad` units from the stock of listing `id_pub`.
    pub fn descontar_stock_publicacion(&mut self, id_pub: u32, cantidad: u32) -> (r: Result<
        (),
        ErroresContrato,
    >)
        requires
            old(self).wf(),
        ensures
            final(self).wf(),
            final(self).usuarios_v() == old(self).usuarios_v(),
            final(self).categorias_v() == old(self).categorias_v(),
            final(self).productos_v() == old(self).productos_v(),
            final(self).ordenes_v() == old(self).ordenes_v(),
            id_pub >= old(self).publicaciones_v().len() ==> r == Err::<(), _>(
                ErroresContrato::PublicacionNoExiste,
            ),
            id_pub < old(self).publicaciones_v().len() && cantidad > old(
                self,
            ).publicaciones_v()[id_pub as int].stock ==> r == Err::<(), _>(
                ErroresContrato::StockPublicacionInsuficiente,
            ),
            r is Ok <==> id_pub < old(self).publicaciones_v().len() && cantidad <= old(
                self,
            ).publicaciones_v()[id_pub as int].stock,
            r is Err ==> final(self).publicaciones_v() == old(self).publicaciones_v(),
            r is Ok ==> final(self).publicaciones_v() == old(self).publicaciones_v().update(
                id_pub as int,
                Publicacion {
                    stock: (old(self).publicaciones_v()[id_pub as int].stock - cantidad) as u32,
                    ..old(self).publicaciones_v()[id_pub as int]
                },
            ),
    {
        if id_pub as usize >= self.publicaciones.len() {
            return Err(ErroresContrato::PublicacionNoExiste);
        }
        let i = id_pub as usize;
        let mut publicacion = self.publicaciones[i];
        publicacion.stock = match checked_decrement(publicacion.stock, cantidad) {
            Some(n) => n,
            None => return Err(ErroresContrato::StockPublicacionInsuficiente),
        };
        self.publicaciones.set(i, publicacion);
        Ok(())
    }

    /// The seller who published listing `id_pub`.
    pub fn get_id_vendedor(&self, id_pub: u32) -> (r: Result<AccountId, ErroresContrato>)
        ensures
            r is Ok <==> id_pub < self.publicaciones_v().len(),
            r matches Ok(v) ==> v == self.publicaciones_v()[id_pub as int].id_user,
            r matches Err(e) ==> e == ErroresContrato::PublicacionNoExiste,
    {
        if (id_pub as usize) < self.publicaciones.len() {
            Ok(self.publicaciones[id_pub as usize].id_user)
        } else {
            Err(ErroresContrato::PublicacionNoExiste)
        }
    }

    /// The unit price of listing `id_pub`.
    pub fn get_precio_unitario(&self, id_pub: u32) -> (r: Result<Balance, ErroresContrato>)
        ensures
            r is Ok <==> id_pub < self.publicaciones_v().len(),
            r matches Ok(p) ==> p == self.publicaciones_v()[id_pub as int].precio_unitario,
            r matches Err(e) ==> e == ErroresContrato::PublicacionNoExiste,
    {
        if (id_pub as usize) < self.publicaciones.len() {
            Ok(self.publicaciones[id_pub as usize].precio_unitario)
        } else {
            Err(ErroresContrato::PublicacionNoExiste)
        }
    }

    /// Copies of all listings, by index.
    pub fn _listar_publicaciones(&self) -> (r: Vec<Publicacion>)
        ensures
            r@ == self.publicaciones_v(),
    {
        let mut resultado: Vec<Publicacion> = Vec::new();
        let mut i: usize = 0;
        while i < self.publicaciones.len()
            invariant
                0 <= i <= self.publicaciones@.len(),
                resultado@ == self.publicaciones@.subrange(0, i as int),
            decreases self.publicaciones@.len() - i,
        {
            resultado.push(self.publicaciones[i]);
            i = i + 1;
            proof {
                assert(resultado@ =~= self.publicaciones@.subrange(0, i as int));
            }
        }
        proof {
            assert(resultado@ =~= self.publicaciones@);
        }
        resultado
    }
}

} // verus!
