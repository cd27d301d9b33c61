//! Modelo matematico del mercado: la vista abstracta del estado, el
//! invariante que toda operacion conserva, y una funcion de transicion
//! por operacion. Los contratos de `mercado` dicen que cada metodo
//! ejecutable coincide exactamente con su transicion.

use vstd::prelude::*;

use crate::tipos::AccountId;
use crate::tipos::Balance;
use crate::tipos::EstadoOrden;
use crate::tipos::Orden;
use crate::tipos::Producto;
use crate::tipos::RolActualizado;
use crate::tipos::RolUsuario;
use crate::tipos::SistemaError;
use crate::tipos::Usuario;
use crate::tipos::actor_autorizado;
use crate::tipos::cambio_rol_permitido;
use crate::tipos::puede_comprar;
use crate::tipos::rol_satisface;
use crate::tipos::transicion_valida;

verus! {

/// Estado abstracto del mercado. `publicado` es historia fantasma: la
/// cantidad con la que cada producto fue publicado, contra la que se
/// enuncia la conservacion de stock.
#[verifier::ext_equal]
pub struct VistaMercado {
    /// Usuarios registrados, en orden de registro.
    pub usuarios: Seq<Usuario>,
    /// Catalogo de productos, indexado por su `id`.
    pub productos: Seq<Producto>,
    /// Libro de ordenes, indexado por su `id`.
    pub ordenes: Seq<Orden>,
    /// Notificaciones de cambio de rol emitidas, en orden de emision.
    pub eventos: Seq<RolActualizado>,
    /// Cantidad de cada producto al momento de su publicacion.
    pub publicado: Seq<u32>,
}

/// Mercado recien creado: todo vacio.
pub open spec fn vista_vacia() -> VistaMercado {
    VistaMercado {
        usuarios: Seq::empty(),
        productos: Seq::empty(),
        ordenes: Seq::empty(),
        eventos: Seq::empty(),
        publicado: Seq::empty(),
    }
}

/// Si la cuenta `quien` tiene un registro de usuario.
pub open spec fn registrado(usuarios: Seq<Usuario>, quien: AccountId) -> bool {
    exists|i: int| 0 <= i < usuarios.len() && usuarios[i].direccion == quien
}

/// Posicion del registro de `quien`. Bien definida cuando `registrado`
/// vale y las direcciones no se repiten.
pub open spec fn indice_usuario(usuarios: Seq<Usuario>, quien: AccountId) -> int {
    choose|i: int| 0 <= i < usuarios.len() && usuarios[i].direccion == quien
}

/// Registro de `quien`, si existe.
pub open spec fn usuario_de(usuarios: Seq<Usuario>, quien: AccountId) -> Option<Usuario> {
    if registrado(usuarios, quien) {
        Some(usuarios[indice_usuario(usuarios, quien)])
    } else {
        None
    }
}

/// Productos publicados por `vendedor`, en orden de publicacion.
pub open spec fn productos_de(productos: Seq<Producto>, vendedor: AccountId) -> Seq<Producto>
    decreases productos.len(),
{
    if productos.len() == 0 {
        Seq::empty()
    } else {
        let resto = productos_de(productos.drop_last(), vendedor);
        if productos.last().vendedor == vendedor {
            resto.push(productos.last())
        } else {
            resto
        }
    }
}

/// Suma de las cantidades reservadas por las ordenes no canceladas
/// sobre el producto `pid`.
pub open spec fn reservado(ordenes: Seq<Orden>, pid: int) -> int
    decreases ordenes.len(),
{
    if ordenes.len() == 0 {
        0
    } else {
        reservado(ordenes.drop_last(), pid) + if ordenes.last().producto_id == pid
            && !(ordenes.last().estado is Cancelada) {
            ordenes.last().cantidad as int
        } else {
            0
        }
    }
}

/// Cada cuenta aparece a lo sumo una vez en el registro de usuarios.
pub open spec fn direcciones_unicas(usuarios: Seq<Usuario>) -> bool {
    forall|i: int, j: int|
        0 <= i < j < usuarios.len() ==> usuarios[i].direccion != usuarios[j].direccion
}

/// Los identificadores de productos y de ordenes son su posicion en la
/// coleccion: densos, sin huecos, y por eso acotados por `u32`.
pub open spec fn identificadores_densos(v: VistaMercado) -> bool {
    &&& forall|i: int| 0 <= i < v.productos.len() ==> (#[trigger] v.productos[i]).id == i
    &&& forall|i: int| 0 <= i < v.ordenes.len() ==> (#[trigger] v.ordenes[i]).id == i
    &&& v.productos.len() <= u32::MAX
    &&& v.ordenes.len() <= u32::MAX
}

/// Toda orden refiere a un producto que existia al crearla y pide una
/// cantidad positiva.
pub open spec fn ordenes_bien_formadas(v: VistaMercado) -> bool {
    &&& forall|i: int|
        0 <= i < v.ordenes.len() ==> (#[trigger] v.ordenes[i]).producto_id < v.productos.len()
    &&& forall|i: int| 0 <= i < v.ordenes.len() ==> (#[trigger] v.ordenes[i]).cantidad > 0
}

/// Conservacion de stock: la cantidad vigente de cada producto mas lo
/// reservado por sus ordenes no canceladas es exactamente la cantidad
/// con la que fue publicado. Como la cantidad es un `u32`, de aqui sale
/// tambien que ninguna secuencia de operaciones la vuelve negativa.
pub open spec fn conservacion_stock(v: VistaMercado) -> bool {
    &&& v.publicado.len() == v.productos.len()
    &&& forall|j: int|
        0 <= j < v.productos.len() ==> (#[trigger] v.productos[j]).cantidad + reservado(
            v.ordenes,
            j,
        ) == v.publicado[j]
}

/// Invariante del mercado; `vista_vacia` lo cumple y toda operacion lo
/// conserva (ver `leyes::lema_operacion_preserva_invariante`).
pub open spec fn invariante(v: VistaMercado) -> bool {
    &&& direcciones_unicas(v.usuarios)
    &&& identificadores_densos(v)
    &&& ordenes_bien_formadas(v)
    &&& conservacion_stock(v)
}

/// Transicion de `registrar_usuario`: falla con `UsuarioExistente` si
/// la cuenta ya esta registrada; si no, agrega un usuario con el rol
/// pedido y reputaciones en cero.
pub open spec fn registrar_spec(v: VistaMercado, llamador: AccountId, rol: RolUsuario) -> (
    VistaMercado,
    Result<(), SistemaError>,
) {
    if registrado(v.usuarios, llamador) {
        (v, Err(SistemaError::UsuarioExistente))
    } else {
        (
            VistaMercado {
                usuarios: v.usuarios.push(
                    Usuario {
                        direccion: llamador,
                        rol,
                        reputacion_como_comprador: 0,
                        reputacion_como_vendedor: 0,
                    },
                ),
                ..v
            },
            Ok(()),
        )
    }
}

/// Transicion de `modificar_rol_usuario`: exige registro previo y un
/// cambio admitido por la tabla de roles; en exito cambia el rol y
/// emite la notificacion con el rol anterior y el nuevo.
pub open spec fn modificar_rol_spec(
    v: VistaMercado,
    llamador: AccountId,
    nuevo_rol: RolUsuario,
) -> (VistaMercado, Result<(), SistemaError>) {
    if !registrado(v.usuarios, llamador) {
        (v, Err(SistemaError::UsuarioNoRegistrado))
    } else {
        let i = indice_usuario(v.usuarios, llamador);
        let usuario = v.usuarios[i];
        if !cambio_rol_permitido(usuario.rol, nuevo_rol) {
            (v, Err(SistemaError::NoEsRolCorrecto))
        } else {
            (
                VistaMercado {
                    usuarios: v.usuarios.update(i, Usuario { rol: nuevo_rol, ..usuario }),
                    eventos: v.eventos.push(
                        RolActualizado {
                            cuenta: llamador,
                            rol_anterior: usuario.rol,
                            rol_nuevo: nuevo_rol,
                        },
                    ),
                    ..v
                },
                Ok(()),
            )
        }
    }
}

/// Transicion de `publicar_producto`: exige registro, rol de vendedor
/// y cantidad positiva; en exito agrega el producto con el proximo
/// identificador secuencial y lo devuelve.
pub open spec fn publicar_spec(
    v: VistaMercado,
    llamador: AccountId,
    nombre: String,
    descripcion: String,
    precio: Balance,
    cantidad: u32,
    categoria: String,
) -> (VistaMercado, Result<u32, SistemaError>) {
    if !registrado(v.usuarios, llamador) {
        (v, Err(SistemaError::UsuarioNoRegistrado))
    } else if !rol_satisface(
        v.usuarios[indice_usuario(v.usuarios, llamador)].rol,
        RolUsuario::Vendedor,
    ) {
        (v, Err(SistemaError::NoEsRolCorrecto))
    } else if cantidad == 0 {
        (v, Err(SistemaError::CantidadInsuficiente))
    } else {
        let id = v.productos.len() as u32;
        (
            VistaMercado {
                productos: v.productos.push(
                    Producto { id, nombre, descripcion, precio, cantidad, categoria, vendedor: llamador },
                ),
                publicado: v.publicado.push(cantidad),
                ..v
            },
            Ok(id),
        )
    }
}

/// Resultado de listar los productos de `vendedor`: exige que el
/// vendedor este registrado con rol de venta, y falla con
/// `ProductosVacios` si no tiene productos. No modifica el estado.
pub open spec fn listar_spec(v: VistaMercado, vendedor: AccountId) -> Result<
    Seq<Producto>,
    SistemaError,
> {
    if !registrado(v.usuarios, vendedor) {
        Err(SistemaError::UsuarioNoRegistrado)
    } else if !rol_satisface(
        v.usuarios[indice_usuario(v.usuarios, vendedor)].rol,
        RolUsuario::Vendedor,
    ) {
        Err(SistemaError::NoEsRolCorrecto)
    } else if productos_de(v.productos, vendedor).len() == 0 {
        Err(SistemaError::ProductosVacios)
    } else {
        Ok(productos_de(v.productos, vendedor))
    }
}

/// Transicion de `crear_orden`: exige comprador registrado con rol que
/// compra, cantidad positiva, producto existente y stock suficiente.
/// En exito descuenta el stock y agrega la orden `Pendiente` en un
/// unico paso, y devuelve el identificador de la orden.
pub open spec fn crear_orden_spec(
    v: VistaMercado,
    llamador: AccountId,
    producto_id: u32,
    cantidad: u32,
) -> (VistaMercado, Result<u32, SistemaError>) {
    if !registrado(v.usuarios, llamador) {
        (v, Err(SistemaError::UsuarioNoRegistrado))
    } else if !puede_comprar(v.usuarios[indice_usuario(v.usuarios, llamador)].rol) {
        (v, Err(SistemaError::NoEsRolCorrecto))
    } else if cantidad == 0 {
        (v, Err(SistemaError::CantidadInsuficiente))
    } else if producto_id >= v.productos.len() {
        (v, Err(SistemaError::ProductosVacios))
    } else if v.productos[producto_id as int].cantidad < cantidad {
        (v, Err(SistemaError::StockInsuficiente))
    } else {
        let producto = v.productos[producto_id as int];
        let id = v.ordenes.len() as u32;
        let orden = Orden {
            id,
            comprador: llamador,
            vendedor: producto.vendedor,
            producto_id,
            cantidad,
            estado: EstadoOrden::Pendiente,
            comprador_califico: false,
            vendedor_califico: false,
        };
        (
            VistaMercado {
                productos: v.productos.update(
                    producto_id as int,
                    Producto { cantidad: (producto.cantidad - cantidad) as u32, ..producto },
                ),
                ordenes: v.ordenes.push(orden),
                ..v
            },
            Ok(id),
        )
    }
}

/// Transicion comun de `marcar_orden_como_enviada` y de
/// `marcar_como_recibida`: exige llamador registrado y orden
/// existente; luego el control de actor sobre el estado *actual* y el
/// control de transicion, ambos independientes. En exito la orden pasa
/// al estado `objetivo`.
pub open spec fn actualizar_estado_spec(
    v: VistaMercado,
    llamador: AccountId,
    orden_id: u32,
    objetivo: EstadoOrden,
) -> (VistaMercado, Result<(), SistemaError>) {
    if !registrado(v.usuarios, llamador) {
        (v, Err(SistemaError::UsuarioNoRegistrado))
    } else if orden_id >= v.ordenes.len() {
        (v, Err(SistemaError::OrdenNoExiste))
    } else {
        let orden = v.ordenes[orden_id as int];
        if !actor_autorizado(orden, llamador, objetivo) {
            (v, Err(SistemaError::NoEsRolCorrecto))
        } else if !transicion_valida(orden.estado, objetivo) {
            (v, Err(SistemaError::EstadoInvalido))
        } else {
            (
                VistaMercado {
                    ordenes: v.ordenes.update(orden_id as int, Orden { estado: objetivo, ..orden }),
                    ..v
                },
                Ok(()),
            )
        }
    }
}

/// Una operacion del mercado, con su llamador y sus argumentos. Sirve
/// para enunciar leyes sobre *toda* operacion posible.
pub enum Operacion {
    /// Registro de la cuenta llamadora con un rol.
    Registrar { llamador: AccountId, rol: RolUsuario },
    /// Cambio del rol de la cuenta llamadora.
    ModificarRol { llamador: AccountId, nuevo_rol: RolUsuario },
    /// Publicacion de un producto.
    Publicar {
        llamador: AccountId,
        nombre: String,
        descripcion: String,
        precio: Balance,
        cantidad: u32,
        categoria: String,
    },
    /// Creacion de una orden de compra.
    CrearOrden { llamador: AccountId, producto_id: u32, cantidad: u32 },
    /// Marca de una orden como enviada.
    MarcarEnviada { llamador: AccountId, orden_id: u32 },
    /// Marca de una orden como recibida.
    MarcarRecibida { llamador: AccountId, orden_id: u32 },
}

/// Estado que deja `op` aplicada sobre `v`.
pub open spec fn ejecutar(v: VistaMercado, op: Operacion) -> VistaMercado {
    match op {
        Operacion::Registrar { llamador, rol } => registrar_spec(v, llamador, rol).0,
        Operacion::ModificarRol { llamador, nuevo_rol } => modificar_rol_spec(
            v,
            llamador,
            nuevo_rol,
        ).0,
        Operacion::Publicar { llamador, nombre, descripcion, precio, cantidad, categoria } => publicar_spec(
            v,
            llamador,
            nombre,
            descripcion,
            precio,
            cantidad,
            categoria,
        ).0,
        Operacion::CrearOrden { llamador, producto_id, cantidad } => crear_orden_spec(
            v,
            llamador,
            producto_id,
            cantidad,
        ).0,
        Operacion::MarcarEnviada { llamador, orden_id } => actualizar_estado_spec(
            v,
            llamador,
            orden_id,
            EstadoOrden::Enviada,
        ).0,
        Operacion::MarcarRecibida { llamador, orden_id } => actualizar_estado_spec(
            v,
            llamador,
            orden_id,
            EstadoOrden::Recibida,
        ).0,
    }
}

} // verus!
