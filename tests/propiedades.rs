use marketplace::cuenta::AccountId;
use marketplace::decimal::Decimal;
use marketplace::entidades::{EstadoOrden, Rating, Rol, Usuario};
use marketplace::errores::ErroresContrato;
use marketplace::gestion_productos::checked_decrement;
use marketplace::normalizacion::{ancho_de, normalizar_nombre, truncar_nombre};
use marketplace::sistema::Sistema;
use marketplace::usuarios::{MiError, Usuario as Registro, Usuarios};

fn comprador() -> AccountId {
    AccountId([1u8; 32])
}

fn vendedor() -> AccountId {
    AccountId([2u8; 32])
}

fn extrano() -> AccountId {
    AccountId([3u8; 32])
}

/// Seller with a product "Rust Book" (stock 10) in "Libros", and a buyer.
fn mercado_con_producto() -> Sistema {
    let mut s = Sistema::new();
    s._registrar_usuario(vendedor(), "Vende".into(), "v@mail.com".into()).unwrap();
    s._asignar_rol(vendedor(), Rol::Vendedor).unwrap();
    s._registrar_usuario(comprador(), "Compra".into(), "c@mail.com".into()).unwrap();
    s._asignar_rol(comprador(), Rol::Comprador).unwrap();
    s._registrar_categoria("Libros".into()).unwrap();
    s._crear_producto(vendedor(), "Rust Book".into(), "desc".into(), "Libros".into(), 10)
        .unwrap();
    s
}

/// As above, with listing 0 (stock 5, price 100) and order 0 (quantity 2).
fn mercado_con_orden() -> Sistema {
    let mut s = mercado_con_producto();
    s._crear_publicacion(0, vendedor(), 5, 100).unwrap();
    s._crear_orden(0, comprador(), 2).unwrap();
    s
}

#[test]
fn categoria_repetida_tras_normalizar() {
    let mut s = Sistema::new();
    assert!(s._registrar_categoria("Ropa".into()).is_ok());
    assert_eq!(
        s._registrar_categoria("  ROPA  ".into()),
        Err(ErroresContrato::CategoriaYaExistente)
    );
    assert_eq!(s._listar_categorias().len(), 1);
}

#[test]
fn publicacion_descuenta_stock_del_producto() {
    let mut s = mercado_con_producto();
    assert_eq!(s._listar_productos()[0].stock, 10);
    s._crear_publicacion(0, vendedor(), 5, 100).unwrap();
    assert_eq!(s._listar_productos()[0].stock, 5);
    let p = s._listar_publicaciones()[0];
    assert_eq!(p.stock, 5);
    assert_eq!(p.precio_unitario, 100);
    assert!(p.activa);
}

#[test]
fn orden_calcula_total_y_descuenta_publicacion() {
    let s = mercado_con_orden();
    let o = s._listar_ordenes()[0];
    assert_eq!(o.precio_total, 200);
    assert_eq!(o.status, EstadoOrden::Pendiente);
    assert_eq!(o.id_vendedor, vendedor());
    assert_eq!(o.id_comprador, comprador());
    assert_eq!(o.cal_vendedor, None);
    assert_eq!(o.cal_comprador, None);
    assert_eq!(s._listar_publicaciones()[0].stock, 3);
    assert_eq!(s._listar_productos()[0].stock, 5);
}

#[test]
fn ciclo_enviar_recibir_y_recibir_de_nuevo() {
    let mut s = mercado_con_orden();
    assert_eq!(
        s.enviar_producto(vendedor(), 0),
        Ok(String::from("La orden fue enviada correctamente"))
    );
    assert_eq!(s._listar_ordenes()[0].status, EstadoOrden::Enviada);
    assert_eq!(
        s.recibir_producto(comprador(), 0),
        Ok(String::from("La orden fue recibida correctamente"))
    );
    assert_eq!(s._listar_ordenes()[0].status, EstadoOrden::Recibida);
    assert_eq!(s.recibir_producto(comprador(), 0), Err(ErroresContrato::OrdenNoEnviada));
    assert_eq!(s._listar_ordenes()[0].status, EstadoOrden::Recibida);
}

#[test]
fn orden_con_cantidad_cero_no_cambia_nada() {
    let mut s = mercado_con_producto();
    s._crear_publicacion(0, vendedor(), 5, 100).unwrap();
    let antes = s._listar_publicaciones();
    assert_eq!(
        s._crear_orden(0, comprador(), 0),
        Err(ErroresContrato::CantidadEnCarritoMenorAUno)
    );
    assert_eq!(s._listar_publicaciones(), antes);
    assert!(s._listar_ordenes().is_empty());
}

#[test]
fn nombre_largo_se_trunca_y_se_encuentra() {
    let mut s = Sistema::new();
    let largo: String = "Abcdefghij".repeat(30);
    assert_eq!(largo.len(), 300);
    s._registrar_categoria(largo.clone()).unwrap();
    let guardado = s._listar_categorias()[0].nombre.clone();
    assert_eq!(guardado.len(), 100);
    assert_eq!(guardado, "abcdefghij".repeat(10));
    assert_eq!(s.get_categoria_by_name(&largo), Ok(0));
}

#[test]
fn truncado_respeta_limite_de_caracter() {
    let mut texto = "a".repeat(99);
    texto.push('é');
    assert_eq!(truncar_nombre(&texto), "a".repeat(99));
    let acentos = "é".repeat(60);
    assert_eq!(truncar_nombre(&acentos), "é".repeat(50));
    assert_eq!(truncar_nombre("ABC"), "ABC");
    assert_eq!(truncar_nombre(""), "");
}

#[test]
fn normalizar_recorta_y_pasa_a_minusculas() {
    assert_eq!(normalizar_nombre("  HeLLo World \n"), "hello world");
    assert_eq!(normalizar_nombre("ÁRBOL"), "árbol");
    assert_eq!(normalizar_nombre(" \t "), "");
}

#[test]
fn normalizar_dos_veces_es_normalizar_una() {
    for s in ["  Ropa  ", "CaTEgORia 1", "사랑해요", "ÁRBOL Grande", ""] {
        let una = normalizar_nombre(s);
        assert_eq!(normalizar_nombre(&una), una);
    }
}

#[test]
fn anchos_utf8() {
    assert_eq!(ancho_de('a'), 1);
    assert_eq!(ancho_de('é'), 2);
    assert_eq!(ancho_de('사'), 3);
    assert_eq!(ancho_de('😀'), 4);
}

#[test]
fn listados_repetidos_son_iguales() {
    let s = mercado_con_orden();
    assert_eq!(s._listar_productos(), s._listar_productos());
    assert_eq!(s._listar_publicaciones(), s._listar_publicaciones());
    assert_eq!(s._listar_ordenes(), s._listar_ordenes());
    let (a, b) = (s._listar_usuarios(), s._listar_usuarios());
    assert_eq!(a.len(), b.len());
    for (x, y) in a.iter().zip(b.iter()) {
        assert_eq!(x.id, y.id);
        assert_eq!(x.mail, y.mail);
        assert_eq!(x.roles, y.roles);
    }
    let (c, d) = (s._listar_categorias(), s._listar_categorias());
    assert_eq!(c.len(), d.len());
    assert_eq!(c[0].nombre, d[0].nombre);
}

#[test]
fn mail_repetido_se_rechaza() {
    let mut s = Sistema::new();
    s._registrar_usuario(comprador(), "A".into(), "a@mail.com".into()).unwrap();
    assert_eq!(
        s._registrar_usuario(vendedor(), "B".into(), "a@mail.com".into()),
        Err(ErroresContrato::MailYaExistente)
    );
    assert_eq!(
        s._registrar_usuario(comprador(), "C".into(), "c@mail.com".into()),
        Err(ErroresContrato::UsuarioYaExistente)
    );
    assert_eq!(s._listar_usuarios().len(), 1);
    assert_eq!(
        s.get_usuario_by_mail("b@mail.com").map(|u| u.id),
        Err(ErroresContrato::MailInexistente)
    );
}

#[test]
fn producto_repetido_en_otra_categoria_se_acepta() {
    let mut s = mercado_con_producto();
    s._registrar_categoria("Otros".into()).unwrap();
    assert!(s
        ._crear_producto(vendedor(), "Rust Book".into(), "x".into(), "OTROS".into(), 1)
        .is_ok());
    assert_eq!(
        s._crear_producto(vendedor(), "Rust Book".into(), "y".into(), " libros ".into(), 1),
        Err(ErroresContrato::ProductoYaExistente)
    );
    assert_eq!(s._listar_productos()[1].categoria, 1);
}

#[test]
fn producto_con_categoria_invalida() {
    let mut s = mercado_con_producto();
    assert_eq!(
        s._crear_producto(vendedor(), "X".into(), "d".into(), "Hogar".into(), 1),
        Err(ErroresContrato::CategoriaInexistente)
    );
    assert_eq!(
        s._crear_producto(vendedor(), "X".into(), "d".into(), "   ".into(), 1),
        Err(ErroresContrato::NombreCategoriaVacio)
    );
    assert_eq!(
        s._crear_producto(extrano(), "X".into(), "d".into(), "Libros".into(), 1),
        Err(ErroresContrato::UsuarioNoExiste)
    );
}

#[test]
fn registrar_categoria_exige_usuario() {
    let mut s = Sistema::new();
    assert_eq!(
        s.registrar_categoria(extrano(), "Ropa".into()),
        Err(ErroresContrato::UsuarioNoExiste)
    );
    s._registrar_usuario(extrano(), "E".into(), "e@mail.com".into()).unwrap();
    assert!(s.registrar_categoria(extrano(), "Ropa".into()).is_ok());
}

#[test]
fn enviar_exige_rol_vendedor() {
    let mut s = mercado_con_orden();
    assert_eq!(s.enviar_producto(extrano(), 0), Err(ErroresContrato::CuentaNoRegistrada));
    assert_eq!(s.enviar_producto(comprador(), 0), Err(ErroresContrato::RolNoApropiado));
    assert_eq!(s.recibir_producto(vendedor(), 0), Err(ErroresContrato::RolNoApropiado));
    assert_eq!(s.recibir_producto(comprador(), 7), Err(ErroresContrato::OrdenInexistente));
    s.enviar_producto(vendedor(), 0).unwrap();
    assert_eq!(s.enviar_producto(vendedor(), 0), Err(ErroresContrato::OrdenNoPendiente));
}

#[test]
fn orden_errores_de_publicacion_y_precio() {
    let mut s = mercado_con_producto();
    assert_eq!(s._crear_orden(0, comprador(), 1), Err(ErroresContrato::PublicacionNoExiste));
    s._crear_publicacion(0, vendedor(), 2, u128::MAX).unwrap();
    assert_eq!(s._crear_orden(0, comprador(), 2), Err(ErroresContrato::ErrorMultiplicacion));
    assert_eq!(s._crear_orden(0, comprador(), 1).map(|_| s._listar_ordenes().len()), Ok(1));
    s._crear_publicacion(0, vendedor(), 2, 10).unwrap();
    assert_eq!(
        s._crear_orden(1, comprador(), 3),
        Err(ErroresContrato::StockPublicacionInsuficiente)
    );
    assert_eq!(s._crear_orden(1, extrano(), 1), Err(ErroresContrato::UsuarioNoExiste));
}

#[test]
fn cancelar_por_acuerdo() {
    let mut s = mercado_con_orden();
    assert_eq!(
        s._cancelar_orden(0, comprador(), extrano()),
        Err(ErroresContrato::RolNoApropiado)
    );
    assert_eq!(
        s._cancelar_orden(5, comprador(), vendedor()),
        Err(ErroresContrato::OrdenInexistente)
    );
    assert_eq!(s._cancelar_orden(0, comprador(), vendedor()), Ok(()));
    assert_eq!(s._listar_ordenes()[0].status, EstadoOrden::Cancelada);
    assert_eq!(
        s._cancelar_orden(0, comprador(), vendedor()),
        Err(ErroresContrato::OrdenYaCancelada)
    );
    assert_eq!(s.enviar_producto(vendedor(), 0), Err(ErroresContrato::OrdenNoPendiente));
    assert_eq!(s.recibir_producto(comprador(), 0), Err(ErroresContrato::OrdenNoEnviada));
    assert_eq!(s._listar_ordenes()[0].status, EstadoOrden::Cancelada);
    assert_eq!(s._listar_publicaciones()[0].stock, 3);
}

#[test]
fn cancelar_enviada_si_recibida_no() {
    let mut s = mercado_con_orden();
    s._crear_orden(0, comprador(), 1).unwrap();
    s.enviar_producto(vendedor(), 0).unwrap();
    s.enviar_producto(vendedor(), 1).unwrap();
    s.recibir_producto(comprador(), 1).unwrap();
    assert_eq!(s._cancelar_orden(0, comprador(), vendedor()), Ok(()));
    assert_eq!(
        s._cancelar_orden(1, comprador(), vendedor()),
        Err(ErroresContrato::OrdenNoPendiente)
    );
    assert_eq!(s._listar_ordenes()[1].status, EstadoOrden::Recibida);
}

#[test]
fn decremento_controlado() {
    assert_eq!(checked_decrement(10, 3), Some(7));
    assert_eq!(checked_decrement(3, 3), Some(0));
    assert_eq!(checked_decrement(2, 3), None);
}

#[test]
fn decimal_multiplica() {
    let r = Decimal { entero: 1, decimal: 5 }.mult(3);
    assert_eq!((r.entero, r.decimal), (4, 5));
    let r = Decimal { entero: 2, decimal: 25 }.mult(2);
    assert_eq!((r.entero, r.decimal), (4, 50));
    let r = Decimal { entero: 1, decimal: 50 }.mult(3);
    assert_eq!((r.entero, r.decimal), (10, 10));
    let r = Decimal { entero: 7, decimal: 0 }.mult(9);
    assert_eq!((r.entero, r.decimal), (63, 0));
}

#[test]
fn usuario_nuevo_sin_roles() {
    let u = Usuario::new(comprador(), "N".into(), "m".into());
    assert!(!u.has_role(Rol::Comprador));
    assert!(!u.has_role(Rol::Vendedor));
    let r = Rating::new();
    assert_eq!(r.calificacion_comprador, (0, 0));
    assert_eq!(r.calificacion_vendedor, (0, 0));
    let mut s = Sistema::new();
    s._registrar_usuario(comprador(), "N".into(), "m".into()).unwrap();
    s._asignar_rol(comprador(), Rol::Vendedor).unwrap();
    let u = s.get_user(&comprador()).unwrap();
    assert!(u.has_role(Rol::Vendedor));
    assert!(!u.has_role(Rol::Comprador));
    assert_eq!(s.get_user(&extrano()).map(|u| u.id), Err(ErroresContrato::UsuarioNoExiste));
}

#[test]
fn corte_que_deja_blanco_final_no_es_idempotente() {
    let entrada = format!("{} b", "a".repeat(99));
    let una = normalizar_nombre(&entrada);
    assert_eq!(una, format!("{} ", "a".repeat(99)));
    assert_eq!(normalizar_nombre(&una), "a".repeat(99));
}

#[test]
fn almacen_simple_de_usuarios() {
    let mut u = Usuarios::new();
    assert!(u.obtener_todos().is_empty());
    let a = Registro { nombre: "A".into(), mail: "a@mail.com".into() };
    let b = Registro { nombre: "B".into(), mail: "b@mail.com".into() };
    assert_eq!(u.insertar_usuario(comprador(), a.clone()), Ok(()));
    assert_eq!(u.insertar_usuario(vendedor(), b.clone()), Ok(()));
    assert_eq!(u.insertar_usuario(comprador(), b.clone()), Err(MiError::UsuarioYaExistente));
    assert_eq!(u.obtener_todos(), vec![a, b]);
}

#[test]
fn restaurar_desde_partes() {
    let s = mercado_con_orden();
    let (us, cs, ps, pubs, os) = s.en_partes();
    let restaurado = Sistema::desde_partes(us.clone(), cs.clone(), ps.clone(), pubs.clone(), os.clone())
        .expect("the parts of a ledger are valid");
    assert_eq!(restaurado._listar_ordenes(), os);
    assert_eq!(restaurado._listar_productos(), ps);

    let mut repetidos = us.clone();
    repetidos.push(us[0].clone());
    assert!(Sistema::desde_partes(repetidos, cs.clone(), ps.clone(), pubs.clone(), os.clone()).is_none());

    let mut desordenadas = os.clone();
    desordenadas[0].id = 4;
    assert!(Sistema::desde_partes(us.clone(), cs.clone(), ps.clone(), pubs.clone(), desordenadas).is_none());

    let mut huerfanas = pubs.clone();
    huerfanas[0].id_prod = 9;
    assert!(Sistema::desde_partes(us, cs, ps, huerfanas, os).is_none());
}
