use vstd::prelude::*;
use vstd::string::*;

use crate::cuenta::AccountId;
use crate::entidades::{EstadoOrden, Rol};
use crate::errores::ErroresContrato;
use crate::gestion_ordenes::con_estado;
use crate::normalizacion::normalizado;
use crate::sistema::{categoria_con_nombre, con_rol, estados_avanzan, registrado, Sistema};

verus! {

impl Sistema {
    /// A registered `caller` adds a category under the normal form of `nombre`.
    pub fn registrar_categoria(&mut self, caller: AccountId, nombre: String) -> (r: Result<
        String,
        ErroresContrato,
    >)
        requires
            old(self).wf(),
        ensures
            final(self).wf(),
            final(self).usuarios_v() == old(self).usuarios_v(),
            final(self).productos_v() == old(self).productos_v(),
            final(self).publicaciones_v() == old(self).publicaciones_v(),
            final(self).ordenes_v() == old(self).ordenes_v(),
            r is Err ==> final(self).categorias_v() == old(self).categorias_v(),
            ({
                let (us, cs) = (old(self).usuarios_v(), old(self).categorias_v());
                let n = normalizado(nombre@);
                let socio = registrado(us, caller);
                &&& !socio ==> r == Err::<String, _>(ErroresContrato::UsuarioNoExiste)
                &&& socio && n.len() == 0 ==> r == Err::<String, _>(
                    ErroresContrato::NombreCategoriaVacio,
                )
                &&& socio && n.len() > 0 && categoria_con_nombre(cs, n) ==> r == Err::<String, _>(
                    ErroresContrato::CategoriaYaExistente,
                )
                &&& socio && n.len() > 0 && !categoria_con_nombre(cs, n) && cs.len() == u32::MAX
                    ==> r == Err::<String, _>(ErroresContrato::MaxCategoriasAlcanzado)
                &&& r is Ok <==> socio && n.len() > 0 && !categoria_con_nombre(cs, n) && cs.len()
                    < u32::MAX
                &&& r matches Ok(m) ==> {
                    &&& m@ == "la categoria fue registrada correctamente"@
                    &&& final(self).categorias_v().len() == cs.len() + 1
                    &&& final(self).categorias_v().drop_last() == cs
                    &&& final(self).categorias_v().last().id == cs.len()
                    &&& final(self).categorias_v().last().nombre@ == n
                }
            }),
    {
        self.get_user(&caller)?;
        self._registrar_categoria(nombre)
    }

    /// A `caller` holding the seller role marks order `id_orden` as shipped.
    pub fn enviar_producto(&mut self, caller: AccountId, id_orden: u32) -> (r: Result<
        String,
        ErroresContrato,
    >)
        requires
            old(self).wf(),
        ensures
            final(self).wf(),
            final(self).usuarios_v() == old(self).usuarios_v(),
            final(self).categorias_v() == old(self).categorias_v(),
            final(self).productos_v() == old(self).productos_v(),
            final(self).publicaciones_v() == old(self).publicaciones_v(),
            estados_avanzan(old(self).ordenes_v(), final(self).ordenes_v()),
            r is Err ==> final(self).ordenes_v() == old(self).ordenes_v(),
            ({
                let (us, os) = (old(self).usuarios_v(), old(self).ordenes_v());
                let vendedor = con_rol(us, caller, Rol::Vendedor);
                &&& !registrado(us, caller) ==> r == Err::<String, _>(
                    ErroresContrato::CuentaNoRegistrada,
                )
                &&& registrado(us, caller) && !vendedor ==> r == Err::<String, _>(
                    ErroresContrato::RolNoApropiado,
                )
                &&& vendedor && id_orden >= os.len() ==> r == Err::<String, _>(
                    ErroresContrato::OrdenInexistente,
                )
                &&& vendedor && id_orden < os.len() && os[id_orden as int].status
                    != EstadoOrden::Pendiente ==> r == Err::<String, _>(
                    ErroresContrato::OrdenNoPendiente,
                )
                &&& r is Ok <==> vendedor && id_orden < os.len() && os[id_orden as int].status
                    == EstadoOrden::Pendiente
                &&& r matches Ok(m) ==> {
                    &&& m@ == "La orden fue enviada correctamente"@
                    &&& final(self).ordenes_v() == os.update(
                        id_orden as int,
                        con_estado(os[id_orden as int], EstadoOrden::Enviada),
                    )
                }
            }),
    {
        self._usuario_con_rol(caller, Rol::Vendedor)?;
        self._enviar_orden(id_orden)?;
        Ok(String::from_str("La orden fue enviada correctamente"))
    }

    /// A `caller` holding the buyer role marks order `id_orden` as received.
    pub fn recibir_producto(&mut self, caller: AccountId, id_orden: u32) -> (r: Result<
        String,
        ErroresContrato,
    >)
        requires
            old(self).wf(),
        ensures
            final(self).wf(),
            final(self).usuarios_v() == old(self).usuarios_v(),
            final(self).categorias_v() == old(self).categorias_v(),
            final(self).productos_v() == old(self).productos_v(),
            final(self).publicaciones_v() == old(self).publicaciones_v(),
            estados_avanzan(old(self).ordenes_v(), final(self).ordenes_v()),
            r is Err ==> final(self).ordenes_v() == old(self).ordenes_v(),
            ({
                let (us, os) = (old(self).usuarios_v(), old(self).ordenes_v());
                let comprador = con_rol(us, caller, Rol::Comprador);
                &&& !registrado(us, caller) ==> r == Err::<String, _>(
                    ErroresContrato::CuentaNoRegistrada,
                )
                &&& registrado(us, caller) && !comprador ==> r == Err::<String, _>(
                    ErroresContrato::RolNoApropiado,
                )
                &&& comprador && id_orden >= os.len() ==> r == Err::<String, _>(
                    ErroresContrato::OrdenInexistente,
                )
                &&& comprador && id_orden < os.len() && os[id_orden as int].status
                    != EstadoOrden::Enviada ==> r == Err::<String, _>(
                    ErroresContrato::OrdenNoEnviada,
                )
                &&& r is Ok <==> comprador && id_orden < os.len() && os[id_orden as int].status
                    == EstadoOrden::Enviada
                &&& r matches Ok(m) ==> {
                    &&& m@ == "La orden fue recibida correctamente"@
                    &&& final(self).ordenes_v() == os.update(
                        id_orden as int,
                        con_estado(os[id_orden as int], EstadoOrden::Recibida),
                    )
                }
            }),
    {
        self._usuario_con_rol(caller, Rol::Comprador)?;
        self._recibir_orden(id_orden)?;
        Ok(String::from_str("La orden fue recibida correctamente"))
    }
}

} // verus!
