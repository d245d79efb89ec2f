use vstd::prelude::*;
use vstd::string::*;

use crate::entidades::Categoria;
use crate::errores::ErroresContrato;
use crate::normalizacion::{normalizado, normalizar_nombre};
use crate::sistema::{categoria_con_nombre, Sistema};

verus! {

impl Sistema {
    /// The normal form of a category name; an empty one is refused.
    pub fn clean_cat_name(&self, nombre: &String) -> (r: Result<String, ErroresContrato>)
        ensures
            r is Ok <==> normalizado(nombre@).len() > 0,
            r matches Ok(limpio) ==> limpio@ == normalizado(nombre@),
            r matches Err(e) ==> e == ErroresContrato::NombreCategoriaVacio,
    {
        let limpio = normalizar_nombre(nombre.as_str());
        if limpio.as_str().is_empty() {
            Err(ErroresContrato::NombreCategoriaVacio)
        } else {
            Ok(limpio)
        }
    }

    /// Index of the category stored under the name `limpio`, taken as it is.
    pub fn buscar_categoria(&self, limpio: &String) -> (r: Result<u32, ErroresContrato>)
        requires
            self.wf(),
        ensures
            r is Ok <==> categoria_con_nombre(self.categorias_v(), limpio@),
            r matches Ok(i) ==> i < self.categorias_v().len() && self.categorias_v()[i as int].nombre@
                == limpio@,
            r matches Err(e) ==> e == ErroresContrato::CategoriaInexistente,
    {
        let mut i: usize = 0;
        while i < self.categorias.len()
            invariant
                0 <= i <= self.categorias@.len(),
                self.categorias@.len() <= u32::MAX,
                forall|j: int| 0 <= j < i ==> self.categorias@[j].nombre@ != limpio@,
            decreases self.categorias@.len() - i,
        {
            if self.categorias[i].nombre == *limpio {
                return Ok(i as u32);
            }
            i = i + 1;
        }
        Err(ErroresContrato::CategoriaInexistente)
    }

    /// Index of the category whose name has the same normal form as `nombre`.
    pub fn get_categoria_by_name(&self, nombre: &String) -> (r: Result<u32, ErroresContrato>)
        requires
            self.wf(),
        ensures
            normalizado(nombre@).len() == 0 ==> r == Err::<u32, _>(
                ErroresContrato::NombreCategoriaVacio,
            ),
            normalizado(nombre@).len() > 0 && !categoria_con_nombre(
                self.categorias_v(),
                normalizado(nombre@),
            ) ==> r == Err::<u32, _>(ErroresContrato::CategoriaInexistente),
            r is Ok <==> normalizado(nombre@).len() > 0 && categoria_con_nombre(
                self.categorias_v(),
                normalizado(nombre@),
            ),
            r matches Ok(i) ==> i < self.categorias_v().len() && self.categorias_v()[i as int].nombre@
                == normalizado(nombre@),
    {
        let limpio = self.clean_cat_name(nombre)?;
        self.buscar_categoria(&limpio)
    }

    /// Adds a category under the name `limpio`, taken as it is: it must be
    /// non-empty and new, and an index must be left for it.
    pub fn registrar_categoria_limpia(&mut self, limpio: String) -> (r: Result<
        String,
        ErroresContrato,
    >)
        requires
            old(self).wf(),
        ensures
            final(self).wf(),
            final(self).usuarios_v() == old(self).usuarios_v(),
            final(self).productos_v() == old(self).productos_v(),
            final(self).publicaciones_v() == old(self).publicaciones_v(),
            final(self).ordenes_v() == old(self).ordenes_v(),
            limpio@.len() == 0 ==> r == Err::<String, _>(ErroresContrato::NombreCategoriaVacio),
            limpio@.len() > 0 && categoria_con_nombre(old(self).categorias_v(), limpio@) ==> r
                == Err::<String, _>(ErroresContrato::CategoriaYaExistente),
            limpio@.len() > 0 && !categoria_con_nombre(old(self).categorias_v(), limpio@)
                && old(self).categorias_v().len() == u32::MAX ==> r == Err::<String, _>(
                ErroresContrato::MaxCategoriasAlcanzado,
            ),
            r is Err ==> final(self).categorias_v() == old(self).categorias_v(),
            r is Ok <==> limpio@.len() > 0 && !categoria_con_nombre(
                old(self).categorias_v(),
                limpio@,
            ) && old(self).categorias_v().len() < u32::MAX,
            r matches Ok(m) ==> {
                &&& m@ == "la categoria fue registrada correctamente"@
                &&& final(self).categorias_v() == old(self).categorias_v().push(
                    Categoria { id: old(self).categorias_v().len() as u32, nombre: limpio },
                )
            },
    {
        if limpio.as_str().is_empty() {
            return Err(ErroresContrato::NombreCategoriaVacio);
        }
        if self.buscar_categoria(&limpio).is_ok() {
            return Err(ErroresContrato::CategoriaYaExistente);
        }
        if self.categorias.len() == u32::MAX as usize {
            return Err(ErroresContrato::MaxCategoriasAlcanzado);
        }
        let ghost antes = self.categorias@;
        let id = self.categorias.len() as u32;
        self.categorias.push(Categoria::new(id, limpio));
        proof {
            assert(forall|j: int|
                0 <= j < antes.len() ==> self.categorias@[j] == antes[j] && antes[j].nombre@
                    != self.categorias@.last().nombre@);
        }
        Ok(String::from_str("la categoria fue registrada correctamente"))
    }

    /// Adds a category under the normal form of `nombre`.
    pub fn _registrar_categoria(&mut self, nombre: String) -> (r: Result<String, ErroresContrato>)
        requires
            old(self).wf(),
        ensures
            final(self).wf(),
            final(self).usuarios_v() == old(self).usuarios_v(),
            final(self).productos_v() == old(self).productos_v(),
            final(self).publicaciones_v() == old(self).publicaciones_v(),
            final(self).ordenes_v() == old(self).ordenes_v(),
            normalizado(nombre@).len() == 0 ==> r == Err::<String, _>(
                ErroresContrato::NombreCategoriaVacio,
            ),
            normalizado(nombre@).len() > 0 && categoria_con_nombre(
                old(self).categorias_v(),
                normalizado(nombre@),
            ) ==> r == Err::<String, _>(ErroresContrato::CategoriaYaExistente),
            normalizado(nombre@).len() > 0 && !categoria_con_nombre(
                old(self).categorias_v(),
                normalizado(nombre@),
            ) && old(self).categorias_v().len() == u32::MAX ==> r == Err::<String, _>(
                ErroresContrato::MaxCategoriasAlcanzado,
            ),
            r is Err ==> final(self).categorias_v() == old(self).categorias_v(),
            r is Ok <==> normalizado(nombre@).len() > 0 && !categoria_con_nombre(
                old(self).categorias_v(),
                normalizado(nombre@),
            ) && old(self).categorias_v().len() < u32::MAX,
            r matches Ok(m) ==> {
                &&& m@ == "la categoria fue registrada correctamente"@
                &&& final(self).categorias_v().len() == old(self).categorias_v().len() + 1
                &&& final(self).categorias_v().drop_last() == old(self).categorias_v()
                &&& final(self).categorias_v().last().id == old(self).categorias_v().len()
                &&& final(self).categorias_v().last().nombre@ == normalizado(nombre@)
            },
    {
        let limpio = normalizar_nombre(nombre.as_str());
        let ghost antes = self.categorias@;
        let r = self.registrar_categoria_limpia(limpio);
        proof {
            if r is Ok {
                assert(self.categorias@.drop_last() =~= antes);
            }
        }
        r
    }

    /// Copies of all categories, by index.
    pub fn _listar_categorias(&self) -> (r: Vec<Categoria>)
        ensures
            r@ == self.categorias_v(),
    {
        let mut resultado: Vec<Categoria> = Vec::new();
        let mut i: usize = 0;
        while i < self.categorias.len()
            invariant
                0 <= i <= self.categorias@.len(),
                resultado@ == self.categorias@.subrange(0, i as int),
            decreases self.categorias@.len() - i,
        {
            resultado.push(self.categorias[i].copia());
            i = i + 1;
            proof {
                assert(resultado@ =~= self.categorias@.subrange(0, i as int));
            }
        }
        proof {
            assert(resultado@ =~= self.categorias@);
        }
        resultado
    }
}

} // verus!
