use vstd::prelude::*;

use crate::cuenta::AccountId;
use crate::entidades::{es_terminal, EstadoOrden, Orden, Publicacion, Rol};
use crate::errores::ErroresContrato;
use crate::sistema::{con_rol, estados_avanzan, registrado, Sistema};

verus! {

/// The order `o` with its state set to `e`.
pub open spec fn con_estado(o: Orden, e: EstadoOrden) -> Orden {
    Orden { status: e, ..o }
}

impl Sistema {
    /// Buyer `id_comprador` orders `cantidad` units of listing `id_pub`; the
    /// total is the unit price times the quantity, and the units leave the
    /// listing's stock at once. An index must be left for the order.
    pub fn _crear_orden(&mut self, id_pub: u32, id_comprador: AccountId, cantidad: u32) -> (r:
        Result<(), ErroresContrato>)
        requires
            old(self).wf(),
        ensures
            final(self).wf(),
            final(self).usuarios_v() == old(self).usuarios_v(),
            final(self).categorias_v() == old(self).categorias_v(),
            final(self).productos_v() == old(self).productos_v(),
            estados_avanzan(old(self).ordenes_v(), final(self).ordenes_v()),
            r is Err ==> final(self).publicaciones_v() == old(self).publicaciones_v(),
            r is Err ==> final(self).ordenes_v() == old(self).ordenes_v(),
            ({
                let (us, pubs, os) = (
                    old(self).usuarios_v(),
                    old(self).publicaciones_v(),
                    old(self).ordenes_v(),
                );
                let comprador = con_rol(us, id_comprador, Rol::Comprador);
                let existe = comprador && cantidad != 0 && id_pub < pubs.len();
                let p = pubs[id_pub as int];
                let vendedor = existe && con_rol(us, p.id_user, Rol::Vendedor);
                let total = p.precio_unitario * cantidad;
                &&& !registrado(us, id_comprador) ==> r == Err::<(), _>(
                    ErroresContrato::UsuarioNoExiste,
                )
                &&& registrado(us, id_comprador) && !comprador ==> r == Err::<(), _>(
                    ErroresContrato::RolNoApropiado,
                )
                &&& comprador && cantidad == 0 ==> r == Err::<(), _>(
                    ErroresContrato::CantidadEnCarritoMenorAUno,
                )
                &&& comprador && cantidad != 0 && id_pub >= pubs.len() ==> r == Err::<(), _>(
                    ErroresContrato::PublicacionNoExiste,
                )
                &&& existe && !registrado(us, p.id_user) ==> r == Err::<(), _>(
                    ErroresContrato::UsuarioNoExiste,
                )
                &&& existe && registrado(us, p.id_user) && !vendedor ==> r == Err::<(), _>(
                    ErroresContrato::RolNoApropiado,
                )
                &&& vendedor && total > u128::MAX ==> r == Err::<(), _>(
                    ErroresContrato::ErrorMultiplicacion,
                )
                &&& vendedor && total <= u128::MAX && cantidad > p.stock ==> r == Err::<(), _>(
                    ErroresContrato::StockPublicacionInsuficiente,
                )
                &&& vendedor && total <= u128::MAX && cantidad <= p.stock && os.len() == u32::MAX
                    ==> r == Err::<(), _>(ErroresContrato::IndiceInvalido)
                &&& r is Ok <==> vendedor && total <= u128::MAX && cantidad <= p.stock && os.len()
                    < u32::MAX
                &&& r is Ok ==> final(self).publicaciones_v() == pubs.update(
                    id_pub as int,
                    Publicacion { stock: (p.stock - cantidad) as u32, ..p },
                )
                &&& r is Ok ==> final(self).ordenes_v() == os.push(
                    Orden {
                        id: os.len() as u32,
                        id_publicacion: id_pub,
                        id_vendedor: p.id_user,
                        id_comprador,
                        status: EstadoOrden::Pendiente,
                        cantidad,
                        precio_total: total as u128,
                        cal_vendedor: None,
                        cal_comprador: None,
                    },
                )
            }),
    {
        let ic = match self.indice_usuario(&id_comprador) {
            Some(i) => i,
            None => return Err(ErroresContrato::UsuarioNoExiste),
        };
        proof {
            self.lema_rol_de(ic as int, id_comprador, Rol::Comprador);
        }
        if !self.usuarios[ic].has_role(Rol::Comprador) {
            return Err(ErroresContrato::RolNoApropiado);
        }
        if cantidad == 0 {
            return Err(ErroresContrato::CantidadEnCarritoMenorAUno);
        }
        let id_vendedor = self.get_id_vendedor(id_pub)?;
        let iv = match self.indice_usuario(&id_vendedor) {
            Some(i) => i,
            None => return Err(ErroresContrato::UsuarioNoExiste),
        };
        proof {
            self.lema_rol_de(iv as int, id_vendedor, Rol::Vendedor);
        }
        if !self.usuarios[iv].has_role(Rol::Vendedor) {
            return Err(ErroresContrato::RolNoApropiado);
        }
        let precio = self.get_precio_unitario(id_pub)?;
        let precio_total = match precio.checked_mul(cantidad as u128) {
            Some(t) => t,
            None => return Err(ErroresContrato::ErrorMultiplicacion),
        };
        if cantidad > self.publicaciones[id_pub as usize].stock {
            return Err(ErroresContrato::StockPublicacionInsuficiente);
        }
        let id_orden = self.ordenes.len();
        if id_orden == u32::MAX as usize {
            return Err(ErroresContrato::IndiceInvalido);
        }
        match self.descontar_stock_publicacion(id_pub, cantidad) {
            Ok(()) => {},
            Err(e) => return Err(e),
        }
        let orden = Orden::new(
            id_orden as u32,
            id_pub,
            id_vendedor,
            id_comprador,
            cantidad,
            precio_total,
        );
        self.ordenes.push(orden);
        Ok(())
    }

    /// Marks order `id_orden` as shipped; only a pending order can be.
    pub fn _enviar_orden(&mut self, id_orden: u32) -> (r: Result<(), ErroresContrato>)
        requires
            old(self).wf(),
        ensures
            final(self).wf(),
            final(self).usuarios_v() == old(self).usuarios_v(),
            final(self).categorias_v() == old(self).categorias_v(),
            final(self).productos_v() == old(self).productos_v(),
            final(self).publicaciones_v() == old(self).publicaciones_v(),
            estados_avanzan(old(self).ordenes_v(), final(self).ordenes_v()),
            id_orden >= old(self).ordenes_v().len() ==> r == Err::<(), _>(
                ErroresContrato::OrdenInexistente,
            ),
            id_orden < old(self).ordenes_v().len() && old(self).ordenes_v()[id_orden as int].status
                != EstadoOrden::Pendiente ==> r == Err::<(), _>(ErroresContrato::OrdenNoPendiente),
            r is Ok <==> id_orden < old(self).ordenes_v().len() && old(
                self,
            ).ordenes_v()[id_orden as int].status == EstadoOrden::Pendiente,
            r is Err ==> final(self).ordenes_v() == old(self).ordenes_v(),
            r is Ok ==> final(self).ordenes_v() == old(self).ordenes_v().update(
                id_orden as int,
                con_estado(old(self).ordenes_v()[id_orden as int], EstadoOrden::Enviada),
            ),
    {
        if id_orden as usize >= self.ordenes.len() {
            return Err(ErroresContrato::OrdenInexistente);
        }
        let i = id_orden as usize;
        let mut orden = self.ordenes[i];
        match orden.status {
            EstadoOrden::Pendiente => {
                orden.status = EstadoOrden::Enviada;
                self.ordenes.set(i, orden);
                Ok(())
            },
            _ => Err(ErroresContrato::OrdenNoPendiente),
        }
    }

    /// Marks order `id_orden` as received; only a shipped order can be.
    pub fn _recibir_orden(&mut self, id_orden: u32) -> (r: Result<(), ErroresContrato>)
        requires
            old(self).wf(),
        ensures
            final(self).wf(),
            final(self).usuarios_v() == old(self).usuarios_v(),
            final(self).categorias_v() == old(self).categorias_v(),
            final(self).productos_v() == old(self).productos_v(),
            final(self).publicaciones_v() == old(self).publicaciones_v(),
            estados_avanzan(old(self).ordenes_v(), final(self).ordenes_v()),
            id_orden >= old(self).ordenes_v().len() ==> r == Err::<(), _>(
                ErroresContrato::OrdenInexistente,
            ),
            id_orden < old(self).ordenes_v().len() && old(self).ordenes_v()[id_orden as int].status
                != EstadoOrden::Enviada ==> r == Err::<(), _>(ErroresContrato::OrdenNoEnviada),
            r is Ok <==> id_orden < old(self).ordenes_v().len() && old(
                self,
            ).ordenes_v()[id_orden as int].status == EstadoOrden::Enviada,
            r is Err ==> final(self).ordenes_v() == old(self).ordenes_v(),
            r is Ok ==> final(self).ordenes_v() == old(self).ordenes_v().update(
                id_orden as int,
                con_estado(old(self).ordenes_v()[id_orden as int], EstadoOrden::Recibida),
            ),
    {
        if id_orden as usize >= self.ordenes.len() {
            return Err(ErroresContrato::OrdenInexistente);
        }
        let i = id_orden as usize;
        let mut orden = self.ordenes[i];
        match orden.status {
            EstadoOrden::Enviada => {
                orden.status = EstadoOrden::Recibida;
                self.ordenes.set(i, orden);
                Ok(())
            },
            _ => Err(ErroresContrato::OrdenNoEnviada),
        }
    }

    /// Cancels order `id_orden` by agreement of both parties, who must be the
    /// order's buyer and seller; a pending or shipped order can be cancelled.
    /// No stock comes back.
    pub fn _cancelar_orden(
        &mut self,
        id_orden: u32,
        id_comprador: AccountId,
        id_vendedor: AccountId,
    ) -> (r: Result<(), ErroresContrato>)
        requires
            old(self).wf(),
        ensures
            final(self).wf(),
            final(self).usuarios_v() == old(self).usuarios_v(),
            final(self).categorias_v() == old(self).categorias_v(),
            final(self).productos_v() == old(self).productos_v(),
            final(self).publicaciones_v() == old(self).publicaciones_v(),
            estados_avanzan(old(self).ordenes_v(), final(self).ordenes_v()),
            ({
                let os = old(self).ordenes_v();
                let o = os[id_orden as int];
                let partes = id_orden < os.len() && o.id_comprador == id_comprador && o.id_vendedor
                    == id_vendedor;
                &&& id_orden >= os.len() ==> r == Err::<(), _>(ErroresContrato::OrdenInexistente)
                &&& id_orden < os.len() && !partes ==> r == Err::<(), _>(
                    ErroresContrato::RolNoApropiado,
                )
                &&& partes && o.status == EstadoOrden::Cancelada ==> r == Err::<(), _>(
                    ErroresContrato::OrdenYaCancelada,
                )
                &&& partes && o.status == EstadoOrden::Recibida ==> r == Err::<(), _>(
                    ErroresContrato::OrdenNoPendiente,
                )
                &&& r is Ok <==> partes && !es_terminal(o.status)
                &&& r is Err ==> final(self).ordenes_v() == os
                &&& r is Ok ==> final(self).ordenes_v() == os.update(
                    id_orden as int,
                    con_estado(o, EstadoOrden::Cancelada),
                )
            }),
    {
        if id_orden as usize >= self.ordenes.len() {
            return Err(ErroresContrato::OrdenInexistente);
        }
        let i = id_orden as usize;
        let mut orden = self.ordenes[i];
        if !(orden.id_comprador == id_comprador) || !(orden.id_vendedor == id_vendedor) {
            return Err(ErroresContrato::RolNoApropiado);
        }
        match orden.status {
            EstadoOrden::Cancelada => Err(ErroresContrato::OrdenYaCancelada),
            EstadoOrden::Recibida => Err(ErroresContrato::OrdenNoPendiente),
            _ => {
                orden.status = EstadoOrden::Cancelada;
                self.ordenes.set(i, orden);
                Ok(())
            },
        }
    }

    /// Copies of all orders, by index.
    pub fn _listar_ordenes(&self) -> (r: Vec<Orden>)
        ensures
            r@ == self.ordenes_v(),
    {
        let mut resultado: Vec<Orden> = Vec::new();
        let mut i: usize = 0;
        while i < self.ordenes.len()
            invariant
                0 <= i <= self.ordenes@.len(),
                resultado@ == self.ordenes@.subrange(0, i as int),
            decreases self.ordenes@.len() - i,
        {
            resultado.push(self.ordenes[i]);
            i = i + 1;
            proof {
                assert(resultado@ =~= self.ordenes@.subrange(0, i as int));
            }
        }
        proof {
            assert(resultado@ =~= self.ordenes@);
        }
        resultado
    }
}

} // verus!
