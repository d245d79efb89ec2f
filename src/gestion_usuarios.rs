use vstd::prelude::*;
use vstd::string::*;

use crate::cuenta::AccountId;
use crate::entidades::{Rol, Usuario};
use crate::errores::ErroresContrato;
use crate::sistema::{con_rol, mail_en_uso, registrado, Sistema};

verus! {

impl Sistema {
    /// The user registered under `id`.
    pub fn get_user(&self, id: &AccountId) -> (r: Result<Usuario, ErroresContrato>)
        requires
            self.wf(),
        ensures
            r is Ok <==> registrado(self.usuarios_v(), *id),
            r matches Ok(u) ==> exists|i: int|
                0 <= i < self.usuarios_v().len() && self.usuarios_v()[i].id == *id && u.igual(
                    &self.usuarios_v()[i],
                ),
            r matches Err(e) ==> e == ErroresContrato::UsuarioNoExiste,
    {
        match self.indice_usuario(id) {
            Some(i) => {
                let u = self.usuarios[i].copia();
                assert(u.igual(&self.usuarios_v()[i as int]));
                Ok(u)
            },
            None => Err(ErroresContrato::UsuarioNoExiste),
        }
    }

    /// The first user, in registration order, whose contact address is `mail`.
    pub fn get_usuario_by_mail(&self, mail: &str) -> (r: Result<Usuario, ErroresContrato>)
        requires
            self.wf(),
        ensures
            r is Ok <==> mail_en_uso(self.usuarios_v(), mail@),
            r matches Ok(u) ==> exists|i: int|
                0 <= i < self.usuarios_v().len() && self.usuarios_v()[i].mail@ == mail@ && u.igual(
                    &self.usuarios_v()[i],
                ) && forall|j: int| 0 <= j < i ==> self.usuarios_v()[j].mail@ != mail@,
            r matches Err(e) ==> e == ErroresContrato::MailInexistente,
    {
        let buscado = String::from_str(mail);
        let mut i: usize = 0;
        while i < self.usuarios.len()
            invariant
                0 <= i <= self.usuarios@.len(),
                buscado@ == mail@,
                forall|j: int| 0 <= j < i ==> self.usuarios@[j].mail@ != mail@,
            decreases self.usuarios@.len() - i,
        {
            if self.usuarios[i].mail == buscado {
                let u = self.usuarios[i].copia();
                assert(u.igual(&self.usuarios_v()[i as int]));
                return Ok(u);
            }
            i = i + 1;
        }
        Err(ErroresContrato::MailInexistente)
    }

    /// Registers the account `id` with a display name and a contact address
    /// that no other user has; the new user holds no roles.
    pub fn _registrar_usuario(&mut self, id: AccountId, nombre: String, mail: String) -> (r: Result<
        String,
        ErroresContrato,
    >)
        requires
            old(self).wf(),
        ensures
            final(self).wf(),
            final(self).categorias_v() == old(self).categorias_v(),
            final(self).productos_v() == old(self).productos_v(),
            final(self).publicaciones_v() == old(self).publicaciones_v(),
            final(self).ordenes_v() == old(self).ordenes_v(),
            registrado(old(self).usuarios_v(), id) ==> r == Err::<String, _>(
                ErroresContrato::UsuarioYaExistente,
            ),
            !registrado(old(self).usuarios_v(), id) && mail_en_uso(old(self).usuarios_v(), mail@)
                ==> r == Err::<String, _>(ErroresContrato::MailYaExistente),
            r is Err ==> final(self).usuarios_v() == old(self).usuarios_v(),
            r is Ok <==> !registrado(old(self).usuarios_v(), id) && !mail_en_uso(
                old(self).usuarios_v(),
                mail@,
            ),
            r matches Ok(m) ==> {
                &&& m@ == "El usuario fue registrado correctamente"@
                &&& final(self).usuarios_v().len() == old(self).usuarios_v().len() + 1
                &&& final(self).usuarios_v().drop_last() == old(self).usuarios_v()
                &&& final(self).usuarios_v().last().id == id
                &&& final(self).usuarios_v().last().nombre == nombre
                &&& final(self).usuarios_v().last().mail == mail
                &&& final(self).usuarios_v().last().roles@ == Seq::<Rol>::empty()
            },
    {
        if self.indice_usuario(&id).is_some() {
            return Err(ErroresContrato::UsuarioYaExistente);
        }
        if self.get_usuario_by_mail(mail.as_str()).is_ok() {
            return Err(ErroresContrato::MailYaExistente);
        }
        let ghost antes = self.usuarios@;
        let usuario = Usuario::new(id, nombre, mail);
        self.usuarios.push(usuario);
        proof {
            assert(self.usuarios@.drop_last() =~= antes);
            assert(forall|j: int|
                0 <= j < antes.len() ==> self.usuarios@[j] == antes[j] && antes[j].id != id
                    && antes[j].mail@ != self.usuarios@.last().mail@);
        }
        Ok(String::from_str("El usuario fue registrado correctamente"))
    }

    /// Grants `rol` to the user `id`; a role is granted at most once.
    pub fn _asignar_rol(&mut self, id: AccountId, rol: Rol) -> (r: Result<String, ErroresContrato>)
        requires
            old(self).wf(),
        ensures
            final(self).wf(),
            final(self).categorias_v() == old(self).categorias_v(),
            final(self).productos_v() == old(self).productos_v(),
            final(self).publicaciones_v() == old(self).publicaciones_v(),
            final(self).ordenes_v() == old(self).ordenes_v(),
            !registrado(old(self).usuarios_v(), id) ==> r == Err::<String, _>(
                ErroresContrato::UsuarioNoExiste,
            ),
            con_rol(old(self).usuarios_v(), id, rol) ==> r == Err::<String, _>(
                ErroresContrato::AlreadyHasRol,
            ),
            r is Err ==> final(self).usuarios_v() == old(self).usuarios_v(),
            forall|x: AccountId|
                registrado(final(self).usuarios_v(), x) == registrado(old(self).usuarios_v(), x),
            forall|x: AccountId, q: Rol|
                con_rol(final(self).usuarios_v(), x, q) <==> con_rol(old(self).usuarios_v(), x, q)
                    || (r is Ok && x == id && q == rol),
            r is Ok <==> registrado(old(self).usuarios_v(), id) && !con_rol(
                old(self).usuarios_v(),
                id,
                rol,
            ),
            r matches Ok(m) ==> {
                &&& m@ == "rol agregado correctamente"@
                &&& final(self).usuarios_v().len() == old(self).usuarios_v().len()
                &&& exists|i: int|
                    0 <= i < old(self).usuarios_v().len() && old(self).usuarios_v()[i].id == id
                        && final(self).usuarios_v() == old(self).usuarios_v().update(
                        i,
                        final(self).usuarios_v()[i],
                    ) && ({
                        let (a, d) = (old(self).usuarios_v()[i], final(self).usuarios_v()[i]);
                        &&& d.id == a.id
                        &&& d.nombre == a.nombre
                        &&& d.mail == a.mail
                        &&& d.rating == a.rating
                        &&& d.roles@ == a.roles@.push(rol)
                    })
            },
    {
        let i = match self.indice_usuario(&id) {
            Some(i) => i,
            None => return Err(ErroresContrato::UsuarioNoExiste),
        };
        proof {
            self.lema_rol_de(i as int, id, rol);
        }
        if self.usuarios[i].has_role(rol) {
            return Err(ErroresContrato::AlreadyHasRol);
        }
        let mut usuario = self.usuarios[i].copia();
        usuario.roles.push(rol);
        let ghost antes = self.usuarios@;
        self.usuarios.set(i, usuario);
        proof {
            assert(self.usuarios@ =~= antes.update(i as int, self.usuarios@[i as int]));
            assert(self.usuarios@[i as int].roles@ == antes[i as int].roles@.push(rol));
            assert(self.usuarios@[i as int].nombre == antes[i as int].nombre);
            assert(self.usuarios@[i as int].mail == antes[i as int].mail);
            assert(forall|j: int|
                0 <= j < antes.len() ==> self.usuarios@[j].id == antes[j].id
                    && self.usuarios@[j].mail@ == antes[j].mail@);
            assert(self.usuarios@[i as int].roles@.contains(rol)) by {
                assert(self.usuarios@[i as int].roles@.last() == rol);
            }
            assert forall|x: AccountId, q: Rol|
                con_rol(self.usuarios@, x, q) <==> con_rol(antes, x, q) || (x == id && q
                    == rol) by {
                if con_rol(antes, x, q) {
                    let j = choose|j: int|
                        0 <= j < antes.len() && antes[j].id == x && antes[j].roles@.contains(q);
                    if j == i {
                        let k = choose|k: int| 0 <= k < antes[j].roles@.len() && antes[j].roles@[k] == q;
                        assert(self.usuarios@[j].roles@[k] == q);
                    }
                }
                if con_rol(self.usuarios@, x, q) {
                    let j = choose|j: int|
                        0 <= j < self.usuarios@.len() && self.usuarios@[j].id == x
                            && self.usuarios@[j].roles@.contains(q);
                    if j == i && !(x == id && q == rol) {
                        let k = choose|k: int|
                            0 <= k < self.usuarios@[j].roles@.len() && self.usuarios@[j].roles@[k] == q;
                        assert(k < antes[j].roles@.len());
                        assert(antes[j].roles@[k] == q);
                    }
                }
            }
            assert forall|x: AccountId|
                registrado(self.usuarios@, x) == registrado(antes, x) by {
                if registrado(antes, x) {
                    let j = choose|j: int| 0 <= j < antes.len() && antes[j].id == x;
                    assert(self.usuarios@[j].id == x);
                }
            }
        }
        proof {
            let k = i as int;
            let (a, d) = (old(self).usuarios_v()[k], self.usuarios_v()[k]);
            assert(self.usuarios_v() == old(self).usuarios_v().update(k, d));
            assert(d.roles@ == a.roles@.push(rol) && d.id == a.id && d.rating == a.rating);
        }
        Ok(String::from_str("rol agregado correctamente"))
    }

    /// Copies of all users, in registration order.
    pub fn _listar_usuarios(&self) -> (r: Vec<Usuario>)
        ensures
            r@.len() == self.usuarios_v().len(),
            forall|i: int| 0 <= i < r@.len() ==> r@[i].igual(&self.usuarios_v()[i]),
    {
        let mut resultado: Vec<Usuario> = Vec::new();
        let mut i: usize = 0;
        while i < self.usuarios.len()
            invariant
                0 <= i <= self.usuarios@.len(),
                resultado@.len() == i,
                forall|j: int| 0 <= j < i ==> resultado@[j].igual(&self.usuarios@[j]),
            decreases self.usuarios@.len() - i,
        {
            resultado.push(self.usuarios[i].copia());
            i = i + 1;
        }
        resultado
    }

    /// Checks that `caller` is registered and holds `rol`.
    pub fn _usuario_con_rol(&self, caller: AccountId, rol: Rol) -> (r: Result<(), ErroresContrato>)
        requires
            self.wf(),
        ensures
            !registrado(self.usuarios_v(), caller) ==> r == Err::<(), _>(
                ErroresContrato::CuentaNoRegistrada,
            ),
            registrado(self.usuarios_v(), caller) && !con_rol(self.usuarios_v(), caller, rol) ==> r
                == Err::<(), _>(ErroresContrato::RolNoApropiado),
            r is Ok <==> con_rol(self.usuarios_v(), caller, rol),
    {
        match self.indice_usuario(&caller) {
            None => Err(ErroresContrato::CuentaNoRegistrada),
            Some(i) => {
                proof {
                    self.lema_rol_de(i as int, caller, rol);
                }
                if self.usuarios[i].has_role(rol) {
                    Ok(())
                } else {
                    Err(ErroresContrato::RolNoApropiado)
                }
            },
        }
    }
}

} // verus!
