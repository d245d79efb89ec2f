use vstd::prelude::*;

verus! {

/// Every way an operation of the ledger can fail.
#[derive(Clone, Copy, Debug, PartialEq, Eq, Structural)]
pub enum ErroresContrato {
    UsuarioSinRoles,
    UsuarioYaExistente,
    UsuarioNoEsComprador,
    UsuarioYaEsComprador,
    UsuarioYaEsVendedor,
    UsuarioNoEsVendedor,
    UsuarioNoExiste,
    UsuarioNoTieneRol,
    OrdenNoPendiente,
    OrdenNoEnviada,
    OrdenYaCancelada,
    OrdenInexistente,
    StockPublicacionInsuficiente,
    StockProductoInsuficiente,
    StockInsuficiente,
    CuentaNoRegistrada,
    MailYaExistente,
    MailInexistente,
    ProductoInexistente,
    ProductoYaExistente,
    PublicacionNoExiste,
    CategoriaYaExistente,
    CategoriaInexistente,
    ErrorMultiplicacion,
    RolNoApropiado,
    AccountIdInvalida,
    IndiceInvalido,
    AlreadyHasRol,
    CantidadEnCarritoMenorAUno,
    NombreCategoriaVacio,
    MaxCategoriasAlcanzado,
    ListaSinProductos,
}

} // verus!
