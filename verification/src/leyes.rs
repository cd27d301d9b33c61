//! Leyes del mercado, demostradas sobre el modelo de `vista`: buena
//! definicion de la busqueda de usuarios, conservacion del invariante
//! por toda operacion, idempotencia del registro, avance monotono de
//! las ordenes, simetria de autorizacion y la tabla de cambios de rol.

use vstd::prelude::*;

use crate::tipos::AccountId;
use crate::tipos::Balance;
use crate::tipos::EstadoOrden;
use crate::tipos::Orden;
use crate::tipos::Producto;
use crate::tipos::RolUsuario;
use crate::tipos::SistemaError;
use crate::tipos::Usuario;
use crate::tipos::avance_valido;
use crate::tipos::cambio_rol_permitido;
use crate::vista::Operacion;
use crate::vista::VistaMercado;
use crate::vista::actualizar_estado_spec;
use crate::vista::conservacion_stock;
use crate::vista::crear_orden_spec;
use crate::vista::direcciones_unicas;
use crate::vista::ejecutar;
use crate::vista::indice_usuario;
use crate::vista::invariante;
use crate::vista::modificar_rol_spec;
use crate::vista::ordenes_bien_formadas;
use crate::vista::productos_de;
use crate::vista::publicar_spec;
use crate::vista::registrado;
use crate::vista::registrar_spec;
use crate::vista::reservado;
use crate::vista::usuario_de;
use crate::vista::vista_vacia;

verus! {

/// Con direcciones unicas, toda posicion que contiene a `quien` es *la*
/// posicion que `indice_usuario` elige.
pub proof fn lema_indice_usuario(usuarios: Seq<Usuario>, quien: AccountId, i: int)
    requires
        direcciones_unicas(usuarios),
        0 <= i < usuarios.len(),
        usuarios[i].direccion == quien,
    ensures
        registrado(usuarios, quien),
        indice_usuario(usuarios, quien) == i,
{
    assert(registrado(usuarios, quien));
    let k = indice_usuario(usuarios, quien);
    if k < i {
        assert(usuarios[k].direccion != usuarios[i].direccion);
    } else if i < k {
        assert(usuarios[i].direccion != usuarios[k].direccion);
    }
}

/// Efecto de agregar un usuario nuevo sobre la busqueda por cuenta: la
/// cuenta nueva pasa a encontrarse, y toda otra cuenta se resuelve
/// igual que antes.
pub proof fn lema_usuario_de_agregar(usuarios: Seq<Usuario>, nuevo: Usuario)
    requires
        direcciones_unicas(usuarios),
        !registrado(usuarios, nuevo.direccion),
    ensures
        direcciones_unicas(usuarios.push(nuevo)),
        usuario_de(usuarios.push(nuevo), nuevo.direccion) == Some(nuevo),
        forall|q: AccountId|
            q != nuevo.direccion ==> usuario_de(usuarios.push(nuevo), q) == usuario_de(
                usuarios,
                q,
            ),
{
    let s2 = usuarios.push(nuevo);
    let n = usuarios.len() as int;
    assert forall|i: int, j: int| 0 <= i < j < s2.len() implies s2[i].direccion
        != s2[j].direccion by {
        if j == n {
            if usuarios[i].direccion == nuevo.direccion {
                assert(registrado(usuarios, nuevo.direccion));
            }
        }
    }
    lema_indice_usuario(s2, nuevo.direccion, n);
    assert forall|q: AccountId| q != nuevo.direccion implies usuario_de(s2, q) == usuario_de(
        usuarios,
        q,
    ) by {
        if registrado(usuarios, q) {
            let k = indice_usuario(usuarios, q);
            assert(0 <= k < usuarios.len() && usuarios[k].direccion == q);
            lema_indice_usuario(s2, q, k);
        } else if registrado(s2, q) {
            let k = indice_usuario(s2, q);
            assert(0 <= k < s2.len() && s2[k].direccion == q);
            if k < n {
                assert(registrado(usuarios, q));
            }
        }
    }
}

/// Efecto de reemplazar el registro de una cuenta (conservando su
/// direccion) sobre la busqueda: esa cuenta pasa a resolverse al
/// registro nuevo, y toda otra cuenta se resuelve igual que antes.
pub proof fn lema_usuario_de_actualizar(usuarios: Seq<Usuario>, i: int, nuevo: Usuario)
    requires
        direcciones_unicas(usuarios),
        0 <= i < usuarios.len(),
        nuevo.direccion == usuarios[i].direccion,
    ensures
        direcciones_unicas(usuarios.update(i, nuevo)),
        usuario_de(usuarios.update(i, nuevo), nuevo.direccion) == Some(nuevo),
        forall|q: AccountId|
            q != nuevo.direccion ==> usuario_de(usuarios.update(i, nuevo), q) == usuario_de(
                usuarios,
                q,
            ),
{
    let s2 = usuarios.update(i, nuevo);
    assert(forall|k: int|
        0 <= k < s2.len() ==> (#[trigger] s2[k]).direccion == usuarios[k].direccion);
    lema_indice_usuario(s2, nuevo.direccion, i);
    assert forall|q: AccountId| q != nuevo.direccion implies usuario_de(s2, q) == usuario_de(
        usuarios,
        q,
    ) by {
        if registrado(usuarios, q) {
            let k = indice_usuario(usuarios, q);
            assert(0 <= k < usuarios.len() && usuarios[k].direccion == q);
            lema_indice_usuario(s2, q, k);
        } else if registrado(s2, q) {
            let k = indice_usuario(s2, q);
            assert(0 <= k < s2.len() && s2[k].direccion == q);
            assert(registrado(usuarios, q));
        }
    }
}

/// La lista de productos de un vendedor tras publicar uno nuevo: se le
/// agrega al final si es suyo, y queda igual si no.
pub proof fn lema_productos_de_agregar(productos: Seq<Producto>, p: Producto, vendedor: AccountId)
    ensures
        productos_de(productos.push(p), vendedor) == if p.vendedor == vendedor {
            productos_de(productos, vendedor).push(p)
        } else {
            productos_de(productos, vendedor)
        },
{
    assert(productos.push(p).drop_last() =~= productos);
    assert(productos.push(p).last() == p);
}

/// Lo reservado tras agregar una orden crece exactamente en su aporte.
pub proof fn lema_reservado_agregar(ordenes: Seq<Orden>, orden: Orden, pid: int)
    ensures
        reservado(ordenes.push(orden), pid) == reservado(ordenes, pid) + if orden.producto_id
            == pid && !(orden.estado is Cancelada) {
            orden.cantidad as int
        } else {
            0
        },
{
    assert(ordenes.push(orden).drop_last() =~= ordenes);
    assert(ordenes.push(orden).last() == orden);
}

/// Cambiar una orden sin tocar su producto, su cantidad ni su condicion
/// de cancelada deja lo reservado igual, para todo producto.
pub proof fn lema_reservado_actualizacion(ordenes: Seq<Orden>, i: int, nueva: Orden, pid: int)
    requires
        0 <= i < ordenes.len(),
        nueva.producto_id == ordenes[i].producto_id,
        nueva.cantidad == ordenes[i].cantidad,
        (nueva.estado is Cancelada) <==> (ordenes[i].estado is Cancelada),
    ensures
        reservado(ordenes.update(i, nueva), pid) == reservado(ordenes, pid),
    decreases ordenes.len(),
{
    let s2 = ordenes.update(i, nueva);
    if i == ordenes.len() - 1 {
        assert(s2.drop_last() =~= ordenes.drop_last());
        assert(s2.last() == nueva);
    } else {
        assert(s2.drop_last() =~= ordenes.drop_last().update(i, nueva));
        assert(s2.last() == ordenes.last());
        lema_reservado_actualizacion(ordenes.drop_last(), i, nueva, pid);
    }
}

/// Sobre un producto que ninguna orden refiere no hay nada reservado.
pub proof fn lema_reservado_sin_ordenes(ordenes: Seq<Orden>, limite: int, pid: int)
    requires
        forall|i: int| 0 <= i < ordenes.len() ==> (#[trigger] ordenes[i]).producto_id < limite,
        pid >= limite,
    ensures
        reservado(ordenes, pid) == 0,
    decreases ordenes.len(),
{
    if ordenes.len() > 0 {
        assert(forall|i: int|
            0 <= i < ordenes.drop_last().len() ==> (#[trigger] ordenes.drop_last()[i])
                == ordenes[i]);
        lema_reservado_sin_ordenes(ordenes.drop_last(), limite, pid);
    }
}

/// El mercado vacio cumple el invariante.
pub proof fn lema_vista_vacia_invariante()
    ensures
        invariante(vista_vacia()),
{
}

/// `registrar_usuario` conserva el invariante.
pub proof fn lema_registrar_preserva_invariante(
    v: VistaMercado,
    llamador: AccountId,
    rol: RolUsuario,
)
    requires
        invariante(v),
    ensures
        invariante(registrar_spec(v, llamador, rol).0),
{
    let v2 = registrar_spec(v, llamador, rol).0;
    if !registrado(v.usuarios, llamador) {
        assert forall|i: int, j: int|
            0 <= i < j < v2.usuarios.len() implies v2.usuarios[i].direccion
            != v2.usuarios[j].direccion by {
            if j == v.usuarios.len() {
                if v.usuarios[i].direccion == llamador {
                    assert(registrado(v.usuarios, llamador));
                }
            }
        }
    }
}

/// `modificar_rol_usuario` conserva el invariante.
pub proof fn lema_modificar_rol_preserva_invariante(
    v: VistaMercado,
    llamador: AccountId,
    nuevo_rol: RolUsuario,
)
    requires
        invariante(v),
    ensures
        invariante(modificar_rol_spec(v, llamador, nuevo_rol).0),
{
    let v2 = modificar_rol_spec(v, llamador, nuevo_rol).0;
    assert(forall|k: int|
        0 <= k < v2.usuarios.len() ==> (#[trigger] v2.usuarios[k]).direccion
            == v.usuarios[k].direccion);
}

/// `publicar_producto` conserva el invariante.
pub proof fn lema_publicar_preserva_invariante(
    v: VistaMercado,
    llamador: AccountId,
    nombre: String,
    descripcion: String,
    precio: Balance,
    cantidad: u32,
    categoria: String,
)
    requires
        invariante(v),
        v.productos.len() < u32::MAX,
    ensures
        invariante(
            publicar_spec(v, llamador, nombre, descripcion, precio, cantidad, categoria).0,
        ),
{
    let v2 = publicar_spec(v, llamador, nombre, descripcion, precio, cantidad, categoria).0;
    if v2 != v {
        assert forall|j: int| 0 <= j < v2.productos.len() implies (#[trigger] v2.productos[j]).cantidad
            + reservado(v2.ordenes, j) == v2.publicado[j] by {
            if j == v.productos.len() {
                lema_reservado_sin_ordenes(v.ordenes, v.productos.len() as int, j);
            }
        }
    }
}

/// `crear_orden` conserva el invariante.
pub proof fn lema_crear_orden_preserva_invariante(
    v: VistaMercado,
    llamador: AccountId,
    producto_id: u32,
    cantidad: u32,
)
    requires
        invariante(v),
        v.ordenes.len() < u32::MAX,
    ensures
        invariante(crear_orden_spec(v, llamador, producto_id, cantidad).0),
{
    let v2 = crear_orden_spec(v, llamador, producto_id, cantidad).0;
    if v2 != v {
        let pid = producto_id as int;
        let orden = v2.ordenes.last();
        assert forall|j: int| 0 <= j < v2.productos.len() implies (#[trigger] v2.productos[j]).cantidad
            + reservado(v2.ordenes, j) == v2.publicado[j] by {
            lema_reservado_agregar(v.ordenes, orden, j);
            assert(v.productos[j].cantidad + reservado(v.ordenes, j) == v.publicado[j]);
        }
    }
}

/// `marcar_orden_como_enviada` y `marcar_como_recibida` conservan el
/// invariante, cualquiera sea el estado pedido.
pub proof fn lema_actualizar_estado_preserva_invariante(
    v: VistaMercado,
    llamador: AccountId,
    orden_id: u32,
    objetivo: EstadoOrden,
)
    requires
        invariante(v),
    ensures
        invariante(actualizar_estado_spec(v, llamador, orden_id, objetivo).0),
{
    let v2 = actualizar_estado_spec(v, llamador, orden_id, objetivo).0;
    if v2 != v {
        let i = orden_id as int;
        let nueva = v2.ordenes[i];
        assert forall|j: int| 0 <= j < v2.productos.len() implies (#[trigger] v2.productos[j]).cantidad
            + reservado(v2.ordenes, j) == v2.publicado[j] by {
            lema_reservado_actualizacion(v.ordenes, i, nueva, j);
            assert(v.productos[j].cantidad + reservado(v.ordenes, j) == v.publicado[j]);
        }
    }
}

/// Toda operacion del mercado conserva el invariante; en particular la
/// conservacion de stock (`conservacion_stock`): la cantidad vigente de
/// cada producto es la publicada menos la suma de las cantidades de las
/// ordenes creadas sobre el.
pub proof fn lema_operacion_preserva_invariante(v: VistaMercado, op: Operacion)
    requires
        invariante(v),
        v.productos.len() < u32::MAX,
        v.ordenes.len() < u32::MAX,
    ensures
        invariante(ejecutar(v, op)),
{
    match op {
        Operacion::Registrar { llamador, rol } => lema_registrar_preserva_invariante(
            v,
            llamador,
            rol,
        ),
        Operacion::ModificarRol { llamador, nuevo_rol } => lema_modificar_rol_preserva_invariante(
            v,
            llamador,
            nuevo_rol,
        ),
        Operacion::Publicar {
            llamador,
            nombre,
            descripcion,
            precio,
            cantidad,
            categoria,
        } => lema_publicar_preserva_invariante(
            v,
            llamador,
            nombre,
            descripcion,
            precio,
            cantidad,
            categoria,
        ),
        Operacion::CrearOrden { llamador, producto_id, cantidad } =>
            lema_crear_orden_preserva_invariante(v, llamador, producto_id, cantidad),
        Operacion::MarcarEnviada { llamador, orden_id } =>
            lema_actualizar_estado_preserva_invariante(
            v,
            llamador,
            orden_id,
            EstadoOrden::Enviada,
        ),
        Operacion::MarcarRecibida { llamador, orden_id } =>
            lema_actualizar_estado_preserva_invariante(
            v,
            llamador,
            orden_id,
            EstadoOrden::Recibida,
        ),
    }
}

/// Conservacion de stock por si sola: toda operacion conserva la
/// clausula de conservacion, junto con la buena formacion de las
/// ordenes de la que depende, sin ningun otro supuesto y cualquiera
/// sea el tamano de las colecciones. La cantidad vigente de cada
/// producto es siempre la publicada menos la suma de las cantidades de
/// las ordenes creadas sobre el y, por ser un `u32`, nunca negativa.
pub proof fn lema_operacion_conserva_stock(v: VistaMercado, op: Operacion)
    requires
        conservacion_stock(v),
        ordenes_bien_formadas(v),
    ensures
        conservacion_stock(ejecutar(v, op)),
        ordenes_bien_formadas(ejecutar(v, op)),
{
    let v2 = ejecutar(v, op);
    if v2 != v {
        match op {
            Operacion::Publicar { .. } => {
                assert forall|j: int|
                    0 <= j < v2.productos.len() implies (#[trigger] v2.productos[j]).cantidad
                    + reservado(v2.ordenes, j) == v2.publicado[j] by {
                    if j == v.productos.len() {
                        lema_reservado_sin_ordenes(v.ordenes, v.productos.len() as int, j);
                    }
                }
            },
            Operacion::CrearOrden { .. } => {
                let orden = v2.ordenes.last();
                assert forall|j: int|
                    0 <= j < v2.productos.len() implies (#[trigger] v2.productos[j]).cantidad
                    + reservado(v2.ordenes, j) == v2.publicado[j] by {
                    lema_reservado_agregar(v.ordenes, orden, j);
                    assert(v.productos[j].cantidad + reservado(v.ordenes, j) == v.publicado[j]);
                }
            },
            Operacion::MarcarEnviada { orden_id, .. } | Operacion::MarcarRecibida {
                orden_id,
                ..
            } => {
                let i = orden_id as int;
                let nueva = v2.ordenes[i];
                assert forall|j: int|
                    0 <= j < v2.productos.len() implies (#[trigger] v2.productos[j]).cantidad
                    + reservado(v2.ordenes, j) == v2.publicado[j] by {
                    lema_reservado_actualizacion(v.ordenes, i, nueva, j);
                    assert(v.productos[j].cantidad + reservado(v.ordenes, j) == v.publicado[j]);
                }
            },
            _ => {},
        }
    }
}

/// Registro idempotente: despues de un registro exitoso de la cuenta
/// `p`, todo nuevo intento de registrarla falla con `UsuarioExistente`
/// y no cambia el estado, cualquiera sea el rol pedido.
pub proof fn lema_registro_idempotente(
    v: VistaMercado,
    p: AccountId,
    rol1: RolUsuario,
    rol2: RolUsuario,
)
    requires
        registrar_spec(v, p, rol1).1 is Ok,
    ensures
        registrar_spec(registrar_spec(v, p, rol1).0, p, rol2) == (
            registrar_spec(v, p, rol1).0,
            Err::<(), SistemaError>(SistemaError::UsuarioExistente),
        ),
{
    let v1 = registrar_spec(v, p, rol1).0;
    assert(v1.usuarios[v.usuarios.len() as int].direccion == p);
    assert(registrado(v1.usuarios, p));
}

/// El registro es permanente: una cuenta registrada sigue registrada
/// despues de cualquier operacion. Junto con `lema_registro_idempotente`
/// esto da la idempotencia del registro a traves de cualquier historia:
/// tras un registro exitoso de `p`, todo intento posterior de
/// registrarla, medie lo que medie, encuentra la cuenta registrada y
/// falla con `UsuarioExistente`.
pub proof fn lema_registro_permanente(v: VistaMercado, op: Operacion, p: AccountId)
    requires
        registrado(v.usuarios, p),
    ensures
        registrado(ejecutar(v, op).usuarios, p),
{
    let k = indice_usuario(v.usuarios, p);
    assert(0 <= k < v.usuarios.len() && v.usuarios[k].direccion == p);
    assert(ejecutar(v, op).usuarios[k].direccion == p);
}

/// Sobre una cuenta registrada, registrar falla siempre con
/// `UsuarioExistente`, cualquiera sea el rol pedido, y no cambia nada.
pub proof fn lema_registro_rechazado(v: VistaMercado, p: AccountId, rol: RolUsuario)
    requires
        registrado(v.usuarios, p),
    ensures
        registrar_spec(v, p, rol) == (v, Err::<(), SistemaError>(SistemaError::UsuarioExistente)),
{
}

/// Lo que queda fijo en la creacion, fijo queda: ninguna operacion
/// cambia la direccion ni las reputaciones de un usuario, ni un campo
/// de un producto salvo su cantidad —que ademas nunca crece—, ni un
/// campo de una orden salvo su estado; y las notificaciones emitidas
/// solo se acumulan.
pub proof fn lema_campos_fijos(v: VistaMercado, op: Operacion)
    ensures
        forall|i: int|
            0 <= i < v.usuarios.len() ==> ((#[trigger] ejecutar(v, op).usuarios[i]).direccion
                == v.usuarios[i].direccion && ejecutar(v, op).usuarios[i].reputacion_como_comprador
                == v.usuarios[i].reputacion_como_comprador && ejecutar(
                v,
                op,
            ).usuarios[i].reputacion_como_vendedor == v.usuarios[i].reputacion_como_vendedor),
        forall|j: int|
            0 <= j < v.productos.len() ==> ((#[trigger] ejecutar(v, op).productos[j]).id
                == v.productos[j].id && ejecutar(v, op).productos[j].nombre
                == v.productos[j].nombre && ejecutar(v, op).productos[j].descripcion
                == v.productos[j].descripcion && ejecutar(v, op).productos[j].precio
                == v.productos[j].precio && ejecutar(v, op).productos[j].categoria
                == v.productos[j].categoria && ejecutar(v, op).productos[j].vendedor
                == v.productos[j].vendedor && ejecutar(v, op).productos[j].cantidad
                <= v.productos[j].cantidad),
        forall|i: int|
            0 <= i < v.ordenes.len() ==> ((#[trigger] ejecutar(v, op).ordenes[i]).id
                == v.ordenes[i].id && ejecutar(v, op).ordenes[i].comprador
                == v.ordenes[i].comprador && ejecutar(v, op).ordenes[i].vendedor
                == v.ordenes[i].vendedor && ejecutar(v, op).ordenes[i].producto_id
                == v.ordenes[i].producto_id && ejecutar(v, op).ordenes[i].cantidad
                == v.ordenes[i].cantidad && ejecutar(v, op).ordenes[i].comprador_califico
                == v.ordenes[i].comprador_califico && ejecutar(v, op).ordenes[i].vendedor_califico
                == v.ordenes[i].vendedor_califico),
        ejecutar(v, op).eventos.len() >= v.eventos.len(),
        forall|i: int|
            0 <= i < v.eventos.len() ==> #[trigger] ejecutar(v, op).eventos[i] == v.eventos[i],
{
}

/// Avance monotono: ninguna operacion mueve una orden hacia atras ni le
/// saltea un estado, y toda orden nueva nace `Pendiente`.
pub proof fn lema_ordenes_monotonas(v: VistaMercado, op: Operacion)
    ensures
        forall|i: int|
            0 <= i < v.ordenes.len() ==> avance_valido(
                v.ordenes[i].estado,
                #[trigger] ejecutar(v, op).ordenes[i].estado,
            ),
        forall|i: int|
            v.ordenes.len() <= i < ejecutar(v, op).ordenes.len() ==> (#[trigger] ejecutar(
                v,
                op,
            ).ordenes[i]).estado is Pendiente,
        ejecutar(v, op).ordenes.len() >= v.ordenes.len(),
{
}

/// Simetria de autorizacion: marcar una orden como enviada solo puede
/// lograrlo su vendedor, y marcarla como recibida solo su comprador,
/// sin importar el rol registrado del llamador.
pub proof fn lema_autorizacion_simetrica(v: VistaMercado, llamador: AccountId, orden_id: u32)
    ensures
        actualizar_estado_spec(v, llamador, orden_id, EstadoOrden::Enviada).1 is Ok ==> llamador
            == v.ordenes[orden_id as int].vendedor,
        actualizar_estado_spec(v, llamador, orden_id, EstadoOrden::Recibida).1 is Ok ==> llamador
            == v.ordenes[orden_id as int].comprador,
{
}

/// Tabla de cambios de rol: `modificar_rol_usuario` tiene exito
/// exactamente para los cuatro cambios que `cambio_rol_permitido`
/// enumera, sobre una cuenta registrada; toda otra solicitud (incluida
/// la reafirmacion del rol vigente) falla.
pub proof fn lema_tabla_cambio_rol(v: VistaMercado, llamador: AccountId, nuevo_rol: RolUsuario)
    ensures
        modificar_rol_spec(v, llamador, nuevo_rol).1 is Ok <==> (usuario_de(v.usuarios, llamador)
            matches Some(u) && cambio_rol_permitido(u.rol, nuevo_rol)),
{
}

} // verus!
