use marketplace_principal::AccountId;
use marketplace_principal::EstadoOrden;
use marketplace_principal::MarketplacePrincipal;
use marketplace_principal::Orden;
use marketplace_principal::Producto;
use marketplace_principal::RolUsuario;
use marketplace_principal::SistemaError;

fn cuenta(b: u8) -> AccountId {
    [b; 32]
}

// Un segundo registro de la misma cuenta falla siempre, sin importar el
// rol pedido, y no cambia nada.
#[test]
fn escenario_registro_repetido() {
    let mut m = MarketplacePrincipal::new();
    let alice = cuenta(0x01);

    assert_eq!(m.registrar_usuario(alice, RolUsuario::Comprador), Ok(()));
    assert_eq!(
        m.registrar_usuario(alice, RolUsuario::Vendedor),
        Err(SistemaError::UsuarioExistente)
    );
    assert_eq!(
        m.registrar_usuario(alice, RolUsuario::Ambos),
        Err(SistemaError::UsuarioExistente)
    );
    assert_eq!(
        m.registrar_usuario(alice, RolUsuario::Comprador),
        Err(SistemaError::UsuarioExistente)
    );
    assert_eq!(m.obtener_usuario(alice).unwrap().rol, RolUsuario::Comprador);
    assert_eq!(m.cantidad_usuarios(), 1);
}

// Publicacion, orden rechazada por stock y orden aceptada con descuento.
#[test]
fn escenario_publicacion_y_stock() {
    let mut m = MarketplacePrincipal::new();
    let bob = cuenta(0x02);
    let carol = cuenta(0x03);

    assert_eq!(m.registrar_usuario(bob, RolUsuario::Vendedor), Ok(()));
    let id = m
        .publicar_producto(
            bob,
            "Widget".to_string(),
            "d".to_string(),
            100,
            5,
            "Tools".to_string(),
        )
        .unwrap();
    assert_eq!(id, 0);
    assert_eq!(m.obtener_producto(0).unwrap().cantidad, 5);

    assert_eq!(m.registrar_usuario(carol, RolUsuario::Comprador), Ok(()));
    assert_eq!(
        m.crear_orden(carol, 0, 7),
        Err(SistemaError::StockInsuficiente)
    );
    assert_eq!(m.crear_orden(carol, 0, 3), Ok(0));
    assert_eq!(m.obtener_producto(0).unwrap().cantidad, 2);
}

// Ciclo de vida completo de una orden, con los rechazos intermedios.
#[test]
fn escenario_ciclo_de_vida_de_orden() {
    let mut m = MarketplacePrincipal::new();
    let bob = cuenta(0x02);
    let carol = cuenta(0x03);

    m.registrar_usuario(bob, RolUsuario::Vendedor).unwrap();
    m.publicar_producto(
        bob,
        "Widget".to_string(),
        "d".to_string(),
        100,
        5,
        "Tools".to_string(),
    )
    .unwrap();
    m.registrar_usuario(carol, RolUsuario::Comprador).unwrap();
    let orden_id = m.crear_orden(carol, 0, 3).unwrap();

    assert_eq!(
        m.marcar_como_recibida(carol, orden_id),
        Err(SistemaError::EstadoInvalido)
    );
    assert_eq!(m.marcar_orden_como_enviada(bob, orden_id), Ok(()));
    assert_eq!(
        m.marcar_orden_como_enviada(bob, orden_id),
        Err(SistemaError::EstadoInvalido)
    );
    assert_eq!(m.marcar_como_recibida(carol, orden_id), Ok(()));
    assert_eq!(
        m.obtener_orden(orden_id).unwrap().estado,
        EstadoOrden::Recibida
    );
    // Terminal: nadie puede moverla mas.
    assert_eq!(
        m.marcar_orden_como_enviada(bob, orden_id),
        Err(SistemaError::EstadoInvalido)
    );
    assert_eq!(
        m.marcar_como_recibida(carol, orden_id),
        Err(SistemaError::EstadoInvalido)
    );
}

// Un no registrado no publica; un comprador tampoco.
#[test]
fn escenario_publicacion_denegada() {
    let mut m = MarketplacePrincipal::new();
    let dave = cuenta(0x04);

    let r = m.publicar_producto(
        dave,
        "Cosa".to_string(),
        "d".to_string(),
        10,
        1,
        "Otros".to_string(),
    );
    assert_eq!(r, Err(SistemaError::UsuarioNoRegistrado));

    m.registrar_usuario(dave, RolUsuario::Comprador).unwrap();
    let r = m.publicar_producto(
        dave,
        "Cosa".to_string(),
        "d".to_string(),
        10,
        1,
        "Otros".to_string(),
    );
    assert_eq!(r, Err(SistemaError::NoEsRolCorrecto));
    assert_eq!(m.cantidad_productos(), 0);
}

// La conservacion de stock sobre varias ordenes y varios productos:
// cantidad vigente = cantidad publicada - suma de lo ordenado.
#[test]
fn escenario_conservacion_de_stock() {
    let mut m = MarketplacePrincipal::new();
    let bob = cuenta(0x02);
    let carol = cuenta(0x03);
    let erin = cuenta(0x05);

    m.registrar_usuario(bob, RolUsuario::Vendedor).unwrap();
    m.publicar_producto(
        bob,
        "A".to_string(),
        "d".to_string(),
        10,
        10,
        "Cat".to_string(),
    )
    .unwrap();
    m.publicar_producto(
        bob,
        "B".to_string(),
        "d".to_string(),
        20,
        4,
        "Cat".to_string(),
    )
    .unwrap();
    m.registrar_usuario(carol, RolUsuario::Comprador).unwrap();
    m.registrar_usuario(erin, RolUsuario::Comprador).unwrap();

    assert_eq!(m.crear_orden(carol, 0, 3), Ok(0));
    assert_eq!(m.crear_orden(erin, 0, 4), Ok(1));
    assert_eq!(m.crear_orden(carol, 1, 4), Ok(2));
    assert_eq!(
        m.crear_orden(erin, 1, 1),
        Err(SistemaError::StockInsuficiente)
    );

    let suma_a: u32 = (0..m.cantidad_ordenes() as u32)
        .filter_map(|i| m.obtener_orden(i).ok())
        .filter(|o| o.producto_id == 0)
        .map(|o| o.cantidad)
        .sum();
    assert_eq!(m.obtener_producto(0).unwrap().cantidad, 10 - suma_a);
    assert_eq!(m.obtener_producto(1).unwrap().cantidad, 0);
}

// La tabla completa de cambios de rol: exactamente cuatro transiciones
// estan permitidas.
#[test]
fn escenario_tabla_cambio_rol_completa() {
    let casos = [
        (RolUsuario::Comprador, RolUsuario::Comprador, false),
        (RolUsuario::Comprador, RolUsuario::Vendedor, true),
        (RolUsuario::Comprador, RolUsuario::Ambos, false),
        (RolUsuario::Vendedor, RolUsuario::Comprador, true),
        (RolUsuario::Vendedor, RolUsuario::Vendedor, false),
        (RolUsuario::Vendedor, RolUsuario::Ambos, false),
        (RolUsuario::Ambos, RolUsuario::Comprador, true),
        (RolUsuario::Ambos, RolUsuario::Vendedor, true),
        (RolUsuario::Ambos, RolUsuario::Ambos, false),
    ];
    for (actual, pedido, esperado) in casos {
        let mut m = MarketplacePrincipal::new();
        let quien = cuenta(0x07);
        m.registrar_usuario(quien, actual).unwrap();
        let r = m.modificar_rol_usuario(quien, pedido);
        if esperado {
            assert_eq!(r, Ok(()));
            assert_eq!(m.obtener_usuario(quien).unwrap().rol, pedido);
        } else {
            assert_eq!(r, Err(SistemaError::NoEsRolCorrecto));
            assert_eq!(m.obtener_usuario(quien).unwrap().rol, actual);
        }
    }
}

// Solo el vendedor de la orden la envia y solo el comprador la recibe,
// aun cuando otros tengan los mismos roles.
#[test]
fn escenario_autorizacion_por_actor() {
    let mut m = MarketplacePrincipal::new();
    let bob = cuenta(0x02);
    let carol = cuenta(0x03);
    let otro_vendedor = cuenta(0x06);
    let otro_comprador = cuenta(0x07);

    m.registrar_usuario(bob, RolUsuario::Vendedor).unwrap();
    m.registrar_usuario(otro_vendedor, RolUsuario::Vendedor)
        .unwrap();
    m.registrar_usuario(carol, RolUsuario::Comprador).unwrap();
    m.registrar_usuario(otro_comprador, RolUsuario::Comprador)
        .unwrap();
    m.publicar_producto(
        bob,
        "Widget".to_string(),
        "d".to_string(),
        100,
        5,
        "Tools".to_string(),
    )
    .unwrap();
    let orden_id = m.crear_orden(carol, 0, 1).unwrap();

    assert_eq!(
        m.marcar_orden_como_enviada(otro_vendedor, orden_id),
        Err(SistemaError::NoEsRolCorrecto)
    );
    assert_eq!(
        m.marcar_orden_como_enviada(carol, orden_id),
        Err(SistemaError::NoEsRolCorrecto)
    );
    assert_eq!(m.marcar_orden_como_enviada(bob, orden_id), Ok(()));
    assert_eq!(
        m.marcar_como_recibida(otro_comprador, orden_id),
        Err(SistemaError::NoEsRolCorrecto)
    );
    assert_eq!(
        m.marcar_como_recibida(bob, orden_id),
        Err(SistemaError::NoEsRolCorrecto)
    );
    assert_eq!(m.marcar_como_recibida(carol, orden_id), Ok(()));
}

// La notificacion de cambio de rol lleva cuenta, rol anterior y nuevo.
#[test]
fn evento_de_cambio_de_rol_contenido() {
    let mut m = MarketplacePrincipal::new();
    let alice = cuenta(0x01);

    m.registrar_usuario(alice, RolUsuario::Comprador).unwrap();
    assert_eq!(m.cantidad_eventos(), 0);
    m.modificar_rol_usuario(alice, RolUsuario::Vendedor).unwrap();
    assert_eq!(m.cantidad_eventos(), 1);

    let evento = m.obtener_evento(0).unwrap();
    assert_eq!(evento.cuenta, alice);
    assert_eq!(evento.rol_anterior, RolUsuario::Comprador);
    assert_eq!(evento.rol_nuevo, RolUsuario::Vendedor);

    // Un cambio rechazado no emite nada.
    let _ = m.modificar_rol_usuario(alice, RolUsuario::Vendedor);
    assert_eq!(m.cantidad_eventos(), 1);
}

#[test]
fn listar_productos_por_vendedor_con_control_de_rol() {
    let mut m = MarketplacePrincipal::new();
    let bob = cuenta(0x02);
    let carol = cuenta(0x03);
    let nadie = cuenta(0x09);
    let sin_productos = cuenta(0x0A);

    m.registrar_usuario(bob, RolUsuario::Vendedor).unwrap();
    m.publicar_producto(
        bob,
        "P1".to_string(),
        "D".to_string(),
        100,
        5,
        "Cat".to_string(),
    )
    .unwrap();
    m.publicar_producto(
        bob,
        "P2".to_string(),
        "D".to_string(),
        200,
        3,
        "Cat".to_string(),
    )
    .unwrap();

    let v = m.listar_productos_por_vendedor(bob).unwrap();
    assert_eq!(v.len(), 2);
    assert_eq!(v[0].nombre, "P1");
    assert_eq!(v[1].nombre, "P2");

    // Una cuenta sin registro se rechaza antes de mirar el catalogo.
    let r = m.listar_productos_por_vendedor(nadie);
    assert!(matches!(r, Err(SistemaError::UsuarioNoRegistrado)));

    // Un comprador registrado no es un vendedor consultable.
    m.registrar_usuario(carol, RolUsuario::Comprador).unwrap();
    let r = m.listar_productos_por_vendedor(carol);
    assert!(matches!(r, Err(SistemaError::NoEsRolCorrecto)));

    // Un vendedor registrado sin productos da la lista vacia como error.
    m.registrar_usuario(sin_productos, RolUsuario::Vendedor)
        .unwrap();
    let r = m.listar_productos_por_vendedor(sin_productos);
    assert!(matches!(r, Err(SistemaError::ProductosVacios)));

    let r = m.listar_productos_por_vendedor_interno(bob).unwrap();
    assert_eq!(r.len(), 2);
}

#[test]
fn listar_mis_productos_ok() {
    let mut m = MarketplacePrincipal::new();
    let bob = cuenta(0x02);

    m.registrar_usuario(bob, RolUsuario::Ambos).unwrap();
    m.publicar_producto(
        bob,
        "P1".to_string(),
        "D".to_string(),
        100,
        5,
        "Cat".to_string(),
    )
    .unwrap();

    let v = m.listar_mis_productos(bob).unwrap();
    assert_eq!(v.len(), 1);
    assert_eq!(v[0].nombre, "P1");
    assert_eq!(v[0].vendedor, bob);
}

#[test]
fn mensajes_de_error() {
    assert_eq!(
        SistemaError::CantidadInsuficiente.mensaje(),
        "Cantidad insuficiente"
    );
    assert_eq!(
        SistemaError::UsuarioNoRegistrado.mensaje(),
        "El usuario no se encuentra registrado"
    );
    assert_eq!(
        SistemaError::NoEsRolCorrecto.mensaje(),
        "El usuario no es del rol correcto"
    );
    assert_eq!(
        SistemaError::ProductosVacios.mensaje(),
        "No se encontraron productos"
    );
    assert_eq!(
        SistemaError::EstadoInvalido.mensaje(),
        "El estado de la orden es inválido"
    );
    assert_eq!(SistemaError::OrdenNoExiste.mensaje(), "La orden no existe");
    assert_eq!(
        SistemaError::UsuarioExistente.mensaje(),
        "El usuario ya está registrado"
    );
    assert_eq!(
        SistemaError::StockInsuficiente.mensaje(),
        "Stock insuficiente para la cantidad solicitada"
    );
}

#[test]
fn producto_new_campos() {
    let vendedor = cuenta(0x02);
    let p = Producto::new(
        3,
        "Nombre".to_string(),
        "Desc".to_string(),
        750,
        9,
        "Cat".to_string(),
        vendedor,
    );
    assert_eq!(p.id, 3);
    assert_eq!(p.nombre, "Nombre");
    assert_eq!(p.descripcion, "Desc");
    assert_eq!(p.precio, 750);
    assert_eq!(p.cantidad, 9);
    assert_eq!(p.categoria, "Cat");
    assert_eq!(p.vendedor, vendedor);
}

#[test]
fn orden_new_campos() {
    let comprador = cuenta(0x03);
    let vendedor = cuenta(0x02);
    let o = Orden::new(5, comprador, vendedor, 2, 4);
    assert_eq!(o.id, 5);
    assert_eq!(o.comprador, comprador);
    assert_eq!(o.vendedor, vendedor);
    assert_eq!(o.producto_id, 2);
    assert_eq!(o.cantidad, 4);
    assert_eq!(o.estado, EstadoOrden::Pendiente);
    assert!(!o.comprador_califico);
    assert!(!o.vendedor_califico);
}
