use vstd::prelude::*;

use crate::cuenta::AccountId;

verus! {

/// Ways the plain user store can refuse an operation.
#[derive(Clone, Copy, Debug, PartialEq, Eq, Structural)]
pub enum MiError {
    NoAutorizado,
    UsuarioYaExistente,
    UsuarioInexistente,
}

/// Name and contact address of an account.
#[derive(Clone, Debug, PartialEq, Eq)]
pub struct Usuario {
    pub nombre: String,
    pub mail: String,
}

impl Usuario {
    /// An independent copy of the record.
    pub fn copia(&self) -> (r: Usuario)
        ensures
            r == *self,
    {
        Usuario { nombre: self.nombre.clone(), mail: self.mail.clone() }
    }
}

/// Accounts in insertion order, each with its record; an account appears
/// at most once.
pub struct Usuarios {
    ids: Vec<AccountId>,
    datos: Vec<Usuario>,
}

impl Usuarios {
    /// Accounts, in insertion order.
    pub closed spec fn ids_v(&self) -> Seq<AccountId> {
        self.ids@
    }

    /// Records, aligned with `ids_v`.
    pub closed spec fn datos_v(&self) -> Seq<Usuario> {
        self.datos@
    }

    /// Both sequences are aligned and no account repeats.
    pub closed spec fn wf(&self) -> bool {
        &&& self.ids@.len() == self.datos@.len()
        &&& forall|i: int, j: int|
            0 <= i < self.ids@.len() && 0 <= j < self.ids@.len() && i != j ==> self.ids@[i]
                != self.ids@[j]
    }

    /// An empty store.
    pub fn new() -> (r: Usuarios)
        ensures
            r.wf(),
            r.ids_v() == Seq::<AccountId>::empty(),
            r.datos_v() == Seq::<Usuario>::empty(),
    {
        Usuarios { ids: Vec::new(), datos: Vec::new() }
    }

    fn contiene(&self, id: &AccountId) -> (r: bool)
        ensures
            r == self.ids_v().contains(*id),
    {
        let mut i: usize = 0;
        while i < self.ids.len()
            invariant
                0 <= i <= self.ids@.len(),
                forall|j: int| 0 <= j < i ==> self.ids@[j] != *id,
            decreases self.ids@.len() - i,
        {
            if self.ids[i] == *id {
                assert(self.ids@[i as int] == *id);
                return true;
            }
            i = i + 1;
        }
        false
    }

    /// Adds `usuario` under `id`, unless `id` is already there.
    pub fn insertar_usuario(&mut self, id: AccountId, usuario: Usuario) -> (r: Result<(), MiError>)
        requires
            old(self).wf(),
        ensures
            final(self).wf(),
            r is Err <==> old(self).ids_v().contains(id),
            r matches Err(e) ==> e == MiError::UsuarioYaExistente,
            r is Err ==> final(self).ids_v() == old(self).ids_v() && final(self).datos_v() == old(
                self,
            ).datos_v(),
            r is Ok ==> final(self).ids_v() == old(self).ids_v().push(id) && final(self).datos_v()
                == old(self).datos_v().push(usuario),
    {
        if self.contiene(&id) {
            return Err(MiError::UsuarioYaExistente);
        }
        self.ids.push(id);
        self.datos.push(usuario);
        Ok(())
    }

    /// Copies of every record, in insertion order.
    pub fn obtener_todos(&self) -> (r: Vec<Usuario>)
        ensures
            r@ == self.datos_v(),
    {
        let mut resultado: Vec<Usuario> = Vec::new();
        let mut i: usize = 0;
        while i < self.datos.len()
            invariant
                0 <= i <= self.datos@.len(),
                resultado@ == self.datos@.subrange(0, i as int),
            decreases self.datos@.len() - i,
        {
            resultado.push(self.datos[i].copia());
            i = i + 1;
            proof {
                assert(resultado@ =~= self.datos@.subrange(0, i as int));
            }
        }
        proof {
            assert(resultado@ =~= self.datos@);
        }
        resultado
    }
}

} // verus!
