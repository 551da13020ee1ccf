//! The semantic analyzer: builds the symbol table from the declarations,
//! rejecting duplicate or colliding names, bad port counts and bad cable
//! lengths; type-checks every statement and expression; and pre-validates
//! coaxial placements against the Ethernet spacing rules.

use vstd::prelude::*;
use crate::ast::{
    altura_stmt, altura_stmts, lemma_altura_elemento, lemma_altura_si, Definitions, Expr, Location,
    Program, Statement,
};
use crate::texto::{spec_decimal_i32, i32_a_cadena};

verus! {

/// The value lattice of the type checker. `Unknown` is compatible with
/// everything; `Int` and `Bool` are mutually coercible.
#[derive(Debug, Clone, Copy, PartialEq, Eq, Structural)]
pub enum Type {
    Int,
    Cadena,
    Bool,
    Void,
    Maquina,
    Concentrador,
    Coaxial,
    Unknown,
}

impl Type {
    /// The display name of the type.
    pub fn to_string(&self) -> (r: String)
        ensures
            *self is Int ==> r@ == "Int"@,
            *self is Bool ==> r@ == "Bool"@,
    {
        match self {
            Type::Int => String::from_str("Int"),
            Type::Cadena => String::from_str("String"),
            Type::Bool => String::from_str("Bool"),
            Type::Void => String::from_str("Void"),
            Type::Maquina => String::from_str("Maquina"),
            Type::Concentrador => String::from_str("Concentrador"),
            Type::Coaxial => String::from_str("Coaxial"),
            Type::Unknown => String::from_str("Unknown"),
        }
    }
}

/// A declared machine: its name and whether it has been placed.
#[derive(Debug, Clone, PartialEq)]
pub struct MaquinaSymbol {
    pub nombre: String,
    pub presente: bool,
    pub location: Location,
}

/// How many ports of a port map are taken.
pub open spec fn cuenta_ocupados(s: Seq<bool>) -> nat
    decreases s.len(),
{
    if s.len() == 0 {
        0
    } else {
        cuenta_ocupados(s.drop_last()) + if s.last() {
            1nat
        } else {
            0nat
        }
    }
}

/// The count of taken ports never passes the port count.
pub proof fn lemma_cuenta_cota(s: Seq<bool>)
    ensures
        cuenta_ocupados(s) <= s.len(),
    decreases s.len(),
{
    if s.len() > 0 {
        lemma_cuenta_cota(s.drop_last());
    }
}

/// Taking one free port raises the count by exactly one.
pub proof fn lemma_cuenta_actualiza(s: Seq<bool>, i: int)
    requires
        0 <= i < s.len(),
        !s[i],
    ensures
        cuenta_ocupados(s.update(i, true)) == cuenta_ocupados(s) + 1,
        cuenta_ocupados(s) < s.len(),
    decreases s.len(),
{
    if s.len() > 0 {
        if i == s.len() - 1 {
            assert(s.update(i, true).drop_last() =~= s.drop_last());
            lemma_cuenta_cota(s.drop_last());
        } else {
            assert(s.update(i, true).drop_last() =~= s.drop_last().update(i, true));
            lemma_cuenta_actualiza(s.drop_last(), i);
        }
    }
}

/// A declared concentrator: its fixed port count, the per-port occupancy
/// map, the count of free ports, and the optional coaxial uplink.
#[derive(Debug, Clone, PartialEq)]
pub struct ConcentradorSymbol {
    pub nombre: String,
    pub puertos: i32,
    pub tiene_coaxial: bool,
    pub puertos_ocupados: Vec<bool>,
    pub disponibles: i32,
    pub coaxial_asignado: Option<String>,
    pub presente: bool,
    pub location: Location,
}

impl ConcentradorSymbol {
    /// The port map length matches the port count and the free count is the
    /// complement of the taken count.
    pub open spec fn wf(self) -> bool {
        &&& 0 <= self.puertos
        &&& self.puertos_ocupados@.len() == self.puertos
        &&& self.disponibles == self.puertos - cuenta_ocupados(self.puertos_ocupados@)
    }

    /// A fresh concentrator with every port free.
    pub fn new(nombre: String, puertos: i32, tiene_coaxial: bool, location: Location) -> (r:
        ConcentradorSymbol)
        requires
            0 <= puertos,
        ensures
            r.wf(),
            r.nombre == nombre,
            r.puertos == puertos,
            r.tiene_coaxial == tiene_coaxial,
            r.disponibles == puertos,
            r.coaxial_asignado is None,
            r.presente == false,
            r.location == location,
            forall|i: int| 0 <= i < r.puertos_ocupados@.len() ==> !(#[trigger] r.puertos_ocupados@[
                i]),
    {
        let n = puertos as usize;
        let mut puertos_ocupados: Vec<bool> = Vec::new();
        let mut i: usize = 0;
        while i < n
            invariant
                i <= n,
                puertos_ocupados@.len() == i,
                forall|j: int| 0 <= j < i ==> !(#[trigger] puertos_ocupados@[j]),
        decreases n - i,
        {
            puertos_ocupados.push(false);
            i = i + 1;
        }
        proof {
            lemma_cuenta_todos_libres(puertos_ocupados@);
        }
        ConcentradorSymbol {
            nombre,
            puertos,
            tiene_coaxial,
            puertos_ocupados,
            disponibles: puertos,
            coaxial_asignado: None,
            presente: false,
            location,
        }
    }

    /// Takes the 1-indexed port when it exists and is free. On failure
    /// nothing changes, the free count included.
    pub fn asignar_puerto(&mut self, puerto: usize) -> (r: bool)
        requires
            old(self).wf(),
        ensures
            final(self).wf(),
            r == (1 <= puerto <= old(self).puertos && !old(self).puertos_ocupados@[puerto - 1]),
            r ==> final(self).puertos_ocupados@ == old(self).puertos_ocupados@.update(
                puerto - 1, true) && final(self).disponibles == old(self).disponibles - 1,
            !r ==> *final(self) == *old(self),
            final(self).nombre == old(self).nombre,
            final(self).puertos == old(self).puertos,
            final(self).tiene_coaxial == old(self).tiene_coaxial,
            final(self).coaxial_asignado == old(self).coaxial_asignado,
            final(self).presente == old(self).presente,
            final(self).location == old(self).location,
    {
        if puerto > 0 && puerto <= self.puertos_ocupados.len() && !self.puertos_ocupados[puerto
            - 1] {
            proof {
                lemma_cuenta_actualiza(self.puertos_ocupados@, puerto - 1);
            }
            self.puertos_ocupados[puerto - 1] = true;
            self.disponibles = self.disponibles - 1;
            true
        } else {
            false
        }
    }

    /// The lowest free port, 1-indexed, if any port is free.
    pub fn primer_puerto_disponible(&self) -> (r: Option<usize>)
        ensures
            match r {
                Some(p) => 1 <= p <= self.puertos_ocupados@.len() && !self.puertos_ocupados@[
                    p - 1] && forall|j: int| 0 <= j < p - 1 ==> self.puertos_ocupados@[j],
                None => forall|j: int|
                    0 <= j < self.puertos_ocupados@.len() ==> self.puertos_ocupados@[j],
            },
    {
        let mut i: usize = 0;
        while i < self.puertos_ocupados.len()
            invariant
                i <= self.puertos_ocupados@.len(),
                forall|j: int| 0 <= j < i ==> self.puertos_ocupados@[j],
            decreases self.puertos_ocupados@.len() - i,
        {
            if !self.puertos_ocupados[i] {
                return Some(i + 1);
            }
            i = i + 1;
        }
        None
    }
}

/// An all-free port map has no taken port.
proof fn lemma_cuenta_todos_libres(s: Seq<bool>)
    requires
        forall|i: int| 0 <= i < s.len() ==> !(#[trigger] s[i]),
    ensures
        cuenta_ocupados(s) == 0,
    decreases s.len(),
{
    if s.len() > 0 {
        lemma_cuenta_todos_libres(s.drop_last());
    }
}

/// A declared coaxial segment: its length in meters and the machines
/// attached so far, with their positions.
#[derive(Debug, Clone, PartialEq)]
pub struct CoaxialSymbol {
    pub nombre: String,
    pub longitud: i32,
    pub completo: bool,
    pub num_maquinas: usize,
    pub maquinas: Vec<String>,
    pub posiciones: Vec<i32>,
    pub presente: bool,
    pub location: Location,
}

/// The Ethernet spacing discipline of a position list: every position lies
/// on the cable and any two positions are at least three meters apart.
pub open spec fn lista_espaciada(posiciones: Seq<i32>, longitud: int) -> bool {
    &&& forall|i: int| 0 <= i < posiciones.len() ==> 0 <= #[trigger] posiciones[i] && posiciones[
        i] <= longitud
    &&& forall|i: int, j: int|
        0 <= i < posiciones.len() && 0 <= j < posiciones.len() && i != j ==> (
        #[trigger] posiciones[i] - #[trigger] posiciones[j] >= 3 || posiciones[j] - posiciones[i]
            >= 3)
}

impl CoaxialSymbol {
    /// The machine and position lists run in step.
    pub open spec fn wf(self) -> bool {
        &&& self.maquinas@.len() == self.num_maquinas
        &&& self.posiciones@.len() == self.num_maquinas
    }

    /// The spacing invariant of this segment.
    pub open spec fn espaciado(self) -> bool {
        lista_espaciada(self.posiciones@, self.longitud as int)
    }

    /// Whether a new machine may sit at `posicion`: the cable length is
    /// lawful, the position lies on the cable, and it keeps three meters
    /// from every machine already attached.
    pub open spec fn spec_puede_agregar(self, posicion: int) -> bool {
        &&& 3 <= self.longitud <= 500
        &&& 0 <= posicion <= self.longitud
        &&& forall|i: int| 0 <= i < self.posiciones@.len() ==> (#[trigger] self.posiciones@[i]
            - posicion >= 3 || posicion - self.posiciones@[i] >= 3)
    }

    /// A fresh segment with no machines attached.
    pub fn new(nombre: String, longitud: i32, location: Location) -> (r: CoaxialSymbol)
        ensures
            r.wf(),
            r.espaciado(),
            r.nombre == nombre,
            r.longitud == longitud,
            r.completo == false,
            r.num_maquinas == 0,
            r.presente == false,
            r.location == location,
    {
        CoaxialSymbol {
            nombre,
            longitud,
            completo: false,
            num_maquinas: 0,
            maquinas: Vec::new(),
            posiciones: Vec::new(),
            presente: false,
            location,
        }
    }

    /// Decides `spec_puede_agregar` exactly; the message names the rule that
    /// failed.
    pub fn puede_agregar_maquina(&self, posicion: i32) -> (r: Result<(), String>)
        ensures
            r is Ok <==> self.spec_puede_agregar(posicion as int),
    {
        if self.longitud < 3 {
            return Err(String::from_str("Cable coaxial muy corto (mínimo 3m): ").concat(
                i32_a_cadena(self.longitud).as_str()).concat("m"));
        }
        if self.longitud > 500 {
            return Err(String::from_str("Cable coaxial muy largo (máximo 500m): ").concat(
                i32_a_cadena(self.longitud).as_str()).concat("m"));
        }
        if posicion < 0 || posicion > self.longitud {
            return Err(String::from_str("Posición ").concat(i32_a_cadena(
                posicion).as_str()).concat("m fuera del rango del cable (0-").concat(
                i32_a_cadena(self.longitud).as_str()).concat("m)"));
        }
        let mut i: usize = 0;
        while i < self.posiciones.len()
            invariant
                i <= self.posiciones@.len(),
                forall|j: int| 0 <= j < i ==> (#[trigger] self.posiciones@[j] - posicion >= 3
                    || posicion - self.posiciones@[j] >= 3),
            decreases self.posiciones@.len() - i,
        {
            let p: i64 = self.posiciones[i] as i64;
            let q: i64 = posicion as i64;
            let d: i64 = if p >= q {
                p - q
            } else {
                q - p
            };
            if d < 3 {
                return Err(String::from_str(
                    "Máquina muy cerca de otra (mínimo 3m de separación)"));
            }
            i = i + 1;
        }
        Ok(())
    }

    /// Attaches a machine at a position. When the position was admissible
    /// for a spaced segment, the segment stays spaced: the spacing invariant
    /// of the analysis.
    pub fn agregar_maquina(&mut self, nombre: String, posicion: i32)
        requires
            old(self).wf(),
        ensures
            final(self).wf(),
            final(self).maquinas@ == old(self).maquinas@.push(nombre),
            final(self).posiciones@ == old(self).posiciones@.push(posicion),
            final(self).num_maquinas == old(self).num_maquinas + 1,
            final(self).nombre == old(self).nombre,
            final(self).longitud == old(self).longitud,
            final(self).completo == old(self).completo,
            final(self).presente == old(self).presente,
            old(self).espaciado() && old(self).spec_puede_agregar(posicion as int) ==> final(
                self).espaciado(),
    {
        self.maquinas.push(nombre);
        self.posiciones.push(posicion);
        let n = self.maquinas.len();
        self.num_maquinas = n;
        proof {
            if old(self).espaciado() && old(self).spec_puede_agregar(posicion as int) {
                lemma_espaciado_push(old(self).posiciones@, posicion, self.longitud as int);
            }
        }
    }

    /// The first position at a multiple of three meters from the start of
    /// the cable where a machine may still sit, if any.
    pub fn encontrar_posicion_disponible(&self) -> (r: Option<i32>)
        ensures
            match r {
                Some(p) => self.spec_puede_agregar(p as int) && p % 3 == 0 && 0 <= p
                    && forall|q: int| 0 <= q < p && #[trigger] (q % 3) == 0 ==> !self
                    .spec_puede_agregar(q),
                None => forall|q: int| 0 <= q <= self.longitud && #[trigger] (q % 3) == 0 ==> !self
                    .spec_puede_agregar(q),
            },
    {
        if self.longitud < 0 {
            return None;
        }
        let mut pos: i64 = 0;
        let tope: i64 = self.longitud as i64;
        while pos <= tope
            invariant
                0 <= pos <= tope + 3,
                tope == self.longitud as int,
                pos % 3 == 0,
                forall|q: int| 0 <= q < pos && #[trigger] (q % 3) == 0 ==> !self.spec_puede_agregar(
                    q),
            decreases tope + 3 - pos,
        {
            let intento: i32 = pos as i32;
            match self.puede_agregar_maquina(intento) {
                Ok(()) => {
                    return Some(intento);
                }
                Err(_) => {}
            }
            proof {
                assert forall|q: int| 0 <= q < pos + 3 && #[trigger] (q % 3) == 0 implies !self
                    .spec_puede_agregar(q) by {
                    if q < pos {
                    } else {
                        assert(q == pos || q == pos + 1 || q == pos + 2);
                        assert(q == pos);
                    }
                }
            }
            pos = pos + 3;
        }
        proof {
            assert forall|q: int| 0 <= q <= self.longitud && #[trigger] (q % 3) == 0 implies !self
                .spec_puede_agregar(q) by {
                assert(q < pos);
            }
        }
        None
    }
}

/// Appending a position admissible under the spacing rules keeps the list
/// spaced: the general spacing law of the Ethernet discipline.
pub proof fn lemma_espaciado_push(posiciones: Seq<i32>, posicion: i32, longitud: int)
    requires
        lista_espaciada(posiciones, longitud),
        0 <= posicion <= longitud,
        forall|i: int| 0 <= i < posiciones.len() ==> (#[trigger] posiciones[i] - posicion >= 3
            || posicion - posiciones[i] >= 3),
    ensures
        lista_espaciada(posiciones.push(posicion), longitud),
{
    let nueva = posiciones.push(posicion);
    assert forall|i: int, j: int|
        0 <= i < nueva.len() && 0 <= j < nueva.len() && i != j implies (#[trigger] nueva[i]
        - #[trigger] nueva[j] >= 3 || nueva[j] - nueva[i] >= 3) by {
        if i < posiciones.len() && j < posiciones.len() {
            assert(nueva[i] == posiciones[i] && nueva[j] == posiciones[j]);
        } else if i < posiciones.len() {
            assert(nueva[j] == posicion && nueva[i] == posiciones[i]);
        } else {
            assert(nueva[i] == posicion && nueva[j] == posiciones[j]);
        }
    }
}

/// The symbol table: machines, concentrators, coaxial segments and named
/// blocks, with names unique within each kind and across the three kinds of
/// network object.
#[derive(Debug, Clone, PartialEq)]
pub struct SymbolTable {
    pub maquinas: Vec<MaquinaSymbol>,
    pub concentradores: Vec<ConcentradorSymbol>,
    pub coaxiales: Vec<CoaxialSymbol>,
    pub modulos: Vec<(String, Location)>,
}

impl SymbolTable {
    /// Unique names within each kind, no collisions across kinds, and every
    /// stored symbol well formed.
    pub open spec fn wf(self) -> bool {
        &&& forall|i: int, j: int| 0 <= i < j < self.maquinas@.len() ==> (
            #[trigger] self.maquinas@[i]).nombre@ != (#[trigger] self.maquinas@[j]).nombre@
        &&& forall|i: int, j: int| 0 <= i < j < self.concentradores@.len() ==> (
            #[trigger] self.concentradores@[i]).nombre@ != (
            #[trigger] self.concentradores@[j]).nombre@
        &&& forall|i: int, j: int| 0 <= i < j < self.coaxiales@.len() ==> (
            #[trigger] self.coaxiales@[i]).nombre@ != (#[trigger] self.coaxiales@[j]).nombre@
        &&& forall|i: int, j: int| 0 <= i < j < self.modulos@.len() ==> (
            #[trigger] self.modulos@[i]).0@ != (#[trigger] self.modulos@[j]).0@
        &&& forall|i: int, j: int|
            0 <= i < self.maquinas@.len() && 0 <= j < self.concentradores@.len() ==> (
            #[trigger] self.maquinas@[i]).nombre@ != (#[trigger] self.concentradores@[j]).nombre@
        &&& forall|i: int, j: int|
            0 <= i < self.maquinas@.len() && 0 <= j < self.coaxiales@.len() ==> (
            #[trigger] self.maquinas@[i]).nombre@ != (#[trigger] self.coaxiales@[j]).nombre@
        &&& forall|i: int, j: int|
            0 <= i < self.concentradores@.len() && 0 <= j < self.coaxiales@.len() ==> (
            #[trigger] self.concentradores@[i]).nombre@ != (#[trigger] self.coaxiales@[j]).nombre@
        &&& forall|i: int| 0 <= i < self.concentradores@.len() ==> (
            #[trigger] self.concentradores@[i]).wf()
        &&& forall|i: int| 0 <= i < self.coaxiales@.len() ==> (#[trigger] self.coaxiales@[i]).wf()
    }

    /// Whether no network object of any kind carries this name.
    pub open spec fn nombre_libre(self, n: Seq<char>) -> bool {
        &&& forall|i: int| 0 <= i < self.maquinas@.len() ==> (
            #[trigger] self.maquinas@[i]).nombre@ != n
        &&& forall|i: int| 0 <= i < self.concentradores@.len() ==> (
            #[trigger] self.concentradores@[i]).nombre@ != n
        &&& forall|i: int| 0 <= i < self.coaxiales@.len() ==> (
            #[trigger] self.coaxiales@[i]).nombre@ != n
    }

    /// An empty table.
    pub fn new() -> (r: SymbolTable)
        ensures
            r.wf(),
            r.maquinas@.len() == 0,
            r.concentradores@.len() == 0,
            r.coaxiales@.len() == 0,
            r.modulos@.len() == 0,
    {
        SymbolTable {
            maquinas: Vec::new(),
            concentradores: Vec::new(),
            coaxiales: Vec::new(),
            modulos: Vec::new(),
        }
    }

    /// The index of a machine by name.
    fn indice_maquina(&self, clave: &String) -> (r: Option<usize>)
        ensures
            match r {
                Some(i) => i < self.maquinas@.len() && self.maquinas@[i as int].nombre@ == clave@
                    && spec_sym_maquina(self.maquinas@, clave@) == Some(i as int),
                None => spec_sym_maquina(self.maquinas@, clave@) is None && forall|i: int|
                    0 <= i < self.maquinas@.len() ==> (#[trigger] self.maquinas@[i]).nombre@
                    != clave@,
            },
    {
        let mut i: usize = 0;
        while i < self.maquinas.len()
            invariant
                i <= self.maquinas@.len(),
                forall|j: int| 0 <= j < i ==> (#[trigger] self.maquinas@[j]).nombre@ != clave@,
            decreases self.maquinas@.len() - i,
        {
            if self.maquinas[i].nombre.eq(clave) {
                proof {
                    lemma_sym_maquina(self.maquinas@, clave@, i as int);
                }
                return Some(i);
            }
            i = i + 1;
        }
        proof {
            lemma_sym_maquina_none(self.maquinas@, clave@);
        }
        None
    }

    /// The index of a concentrator by name.
    fn indice_concentrador(&self, clave: &String) -> (r: Option<usize>)
        ensures
            match r {
                Some(i) => i < self.concentradores@.len() && self.concentradores@[
                    i as int].nombre@ == clave@ && spec_sym_concentrador(self.concentradores@,
                    clave@) == Some(i as int),
                None => spec_sym_concentrador(self.concentradores@, clave@) is None && forall|i: int|
                    0 <= i < self.concentradores@.len() ==> (#[trigger] self.concentradores@[i]).nombre@
                    != clave@,
            },
    {
        let mut i: usize = 0;
        while i < self.concentradores.len()
            invariant
                i <= self.concentradores@.len(),
                forall|j: int| 0 <= j < i ==> (#[trigger] self.concentradores@[j]).nombre@
                    != clave@,
            decreases self.concentradores@.len() - i,
        {
            if self.concentradores[i].nombre.eq(clave) {
                proof {
                    lemma_sym_concentrador(self.concentradores@, clave@, i as int);
                }
                return Some(i);
            }
            i = i + 1;
        }
        proof {
            lemma_sym_concentrador_none(self.concentradores@, clave@);
        }
        None
    }

    /// The index of a coaxial segment by name.
    fn indice_coaxial(&self, clave: &String) -> (r: Option<usize>)
        ensures
            match r {
                Some(i) => i < self.coaxiales@.len() && self.coaxiales@[i as int].nombre@
                    == clave@ && spec_sym_coaxial(self.coaxiales@, clave@) == Some(i as int),
                None => spec_sym_coaxial(self.coaxiales@, clave@) is None && forall|i: int|
                    0 <= i < self.coaxiales@.len() ==> (#[trigger] self.coaxiales@[i]).nombre@
                    != clave@,
            },
    {
        let mut i: usize = 0;
        while i < self.coaxiales.len()
            invariant
                i <= self.coaxiales@.len(),
                forall|j: int| 0 <= j < i ==> (#[trigger] self.coaxiales@[j]).nombre@ != clave@,
            decreases self.coaxiales@.len() - i,
        {
            if self.coaxiales[i].nombre.eq(clave) {
                proof {
                    lemma_sym_coaxial(self.coaxiales@, clave@, i as int);
                }
                return Some(i);
            }
            i = i + 1;
        }
        proof {
            lemma_sym_coaxial_none(self.coaxiales@, clave@);
        }
        None
    }

    /// Registers a machine. It succeeds exactly when the name is free of
    /// every network object kind; on failure nothing changes.
    pub fn definir_maquina(&mut self, nombre: String, location: Location) -> (r: Result<
        (),
        String,
    >)
        requires
            old(self).wf(),
        ensures
            final(self).wf(),
            r is Ok <==> old(self).nombre_libre(nombre@),
            r is Ok ==> final(self).maquinas@ == old(self).maquinas@.push(
                MaquinaSymbol { nombre, presente: false, location })
                && final(self).concentradores == old(self).concentradores && final(self).coaxiales
                == old(self).coaxiales && final(self).modulos == old(self).modulos,
            r is Err ==> *final(self) == *old(self),
    {
        if self.indice_maquina(&nombre).is_some() {
            return Err(String::from_str("Máquina '").concat(nombre.as_str()).concat(
                "' ya fue definida"));
        }
        if self.indice_concentrador(&nombre).is_some() {
            return Err(String::from_str("El nombre '").concat(nombre.as_str()).concat(
                "' ya está en uso por un concentrador"));
        }
        if self.indice_coaxial(&nombre).is_some() {
            return Err(String::from_str("El nombre '").concat(nombre.as_str()).concat(
                "' ya está en uso por un coaxial"));
        }
        self.maquinas.push(MaquinaSymbol { nombre, presente: false, location });
        Ok(())
    }

    /// The machine with the given name, if any.
    pub fn obtener_maquina(&self, nombre: &str) -> (r: Option<&MaquinaSymbol>)
        ensures
            match r {
                Some(m) => spec_sym_maquina(self.maquinas@, nombre@) matches Some(i) && 0 <= i
                    < self.maquinas@.len() && self.maquinas@[i] == *m && self.maquinas@[
                    i].nombre@ == nombre@,
                None => spec_sym_maquina(self.maquinas@, nombre@) is None && forall|i: int|
                    0 <= i < self.maquinas@.len() ==> (#[trigger] self.maquinas@[i]).nombre@
                    != nombre@,
            },
    {
        let clave = String::from_str(nombre);
        match self.indice_maquina(&clave) {
            Some(i) => Some(&self.maquinas[i]),
            None => None,
        }
    }

    /// Registers a concentrator. It succeeds exactly when the name is free
    /// and the port count is 4, 8 or 16; a bad port count is reported with
    /// its value. On failure nothing changes.
    pub fn definir_concentrador(
        &mut self,
        nombre: String,
        puertos: i32,
        tiene_coaxial: bool,
        location: Location,
    ) -> (r: Result<(), String>)
        requires
            old(self).wf(),
        ensures
            final(self).wf(),
            r is Ok <==> (old(self).nombre_libre(nombre@) && (puertos == 4 || puertos == 8
                || puertos == 16)),
            r is Ok ==> final(self).concentradores@.len() == old(self).concentradores@.len() + 1
                && final(self).concentradores@.last().nombre == nombre && final(
                self).concentradores@.last().puertos == puertos && final(
                self).concentradores@.last().tiene_coaxial == tiene_coaxial && final(
                self).concentradores@.last().disponibles == puertos && final(
                self).concentradores@.last().presente == false && final(
                self).concentradores@.last().coaxial_asignado is None && (forall|j: int|
                0 <= j < puertos ==> !(#[trigger] final(
                    self).concentradores@.last().puertos_ocupados@[j])) && (forall|i: int|
                0 <= i < old(self).concentradores@.len() ==> final(self).concentradores@[i] == old(
                    self).concentradores@[i]) && final(self).maquinas == old(self).maquinas
                && final(self).coaxiales == old(self).coaxiales && final(self).modulos == old(
                self).modulos,
            r is Err ==> *final(self) == *old(self),
            (old(self).nombre_libre(nombre@) && !(puertos == 4 || puertos == 8 || puertos == 16))
                ==> (r matches Err(m) && m@ == "Número de puertos inválido: "@ + spec_decimal_i32(
                puertos as int) + ". Debe ser 4, 8 o 16"@),
    {
        if self.indice_concentrador(&nombre).is_some() {
            return Err(String::from_str("Concentrador '").concat(nombre.as_str()).concat(
                "' ya fue definido"));
        }
        if self.indice_maquina(&nombre).is_some() {
            return Err(String::from_str("El nombre '").concat(nombre.as_str()).concat(
                "' ya está en uso por una máquina"));
        }
        if self.indice_coaxial(&nombre).is_some() {
            return Err(String::from_str("El nombre '").concat(nombre.as_str()).concat(
                "' ya está en uso por un coaxial"));
        }
        if puertos != 4 && puertos != 8 && puertos != 16 {
            let m = String::from_str("Número de puertos inválido: ").concat(i32_a_cadena(
                puertos).as_str()).concat(". Debe ser 4, 8 o 16");
            proof {
                assert(m@ =~= "Número de puertos inválido: "@ + spec_decimal_i32(puertos as int)
                    + ". Debe ser 4, 8 o 16"@);
            }
            return Err(m);
        }
        let simbolo = ConcentradorSymbol::new(nombre, puertos, tiene_coaxial, location);
        self.concentradores.push(simbolo);
        Ok(())
    }

    /// The concentrator with the given name, if any.
    pub fn obtener_concentrador(&self, nombre: &str) -> (r: Option<&ConcentradorSymbol>)
        ensures
            match r {
                Some(c) => spec_sym_concentrador(self.concentradores@, nombre@) matches Some(i)
                    && 0 <= i < self.concentradores@.len() && self.concentradores@[i] == *c
                    && self.concentradores@[i].nombre@ == nombre@,
                None => spec_sym_concentrador(self.concentradores@, nombre@) is None
                    && forall|i: int| 0 <= i < self.concentradores@.len() ==> (
                    #[trigger] self.concentradores@[i]).nombre@ != nombre@,
            },
    {
        let clave = String::from_str(nombre);
        match self.indice_concentrador(&clave) {
            Some(i) => Some(&self.concentradores[i]),
            None => None,
        }
    }

    /// Registers a coaxial segment. It succeeds exactly when the name is
    /// free and the length lies between 3 and 500 meters. On failure nothing
    /// changes.
    pub fn definir_coaxial(&mut self, nombre: String, longitud: i32, location: Location) -> (r:
        Result<(), String>)
        requires
            old(self).wf(),
        ensures
            final(self).wf(),
            r is Ok <==> (old(self).nombre_libre(nombre@) && 3 <= longitud <= 500),
            r is Ok ==> final(self).coaxiales@.len() == old(self).coaxiales@.len() + 1 && final(
                self).coaxiales@.last().nombre == nombre && final(self).coaxiales@.last().longitud
                == longitud && final(self).coaxiales@.last().num_maquinas == 0 && final(
                self).coaxiales@.last().completo == false && final(
                self).coaxiales@.last().presente == false && (forall|i: int|
                0 <= i < old(self).coaxiales@.len() ==> final(self).coaxiales@[i] == old(
                    self).coaxiales@[i]) && final(self).maquinas == old(self).maquinas && final(
                self).concentradores == old(self).concentradores && final(self).modulos == old(
                self).modulos,
            r is Err ==> *final(self) == *old(self),
    {
        if self.indice_coaxial(&nombre).is_some() {
            return Err(String::from_str("Coaxial '").concat(nombre.as_str()).concat(
                "' ya fue definido"));
        }
        if self.indice_maquina(&nombre).is_some() {
            return Err(String::from_str("El nombre '").concat(nombre.as_str()).concat(
                "' ya está en uso por una máquina"));
        }
        if self.indice_concentrador(&nombre).is_some() {
            return Err(String::from_str("El nombre '").concat(nombre.as_str()).concat(
                "' ya está en uso por un concentrador"));
        }
        if longitud < 3 {
            return Err(String::from_str(
                "Longitud de cable coaxial inválida: la longitud mínima según reglas Ethernet es 3m"));
        }
        if longitud > 500 {
            return Err(String::from_str(
                "Longitud de cable coaxial inválida: la longitud máxima según reglas Ethernet es 500m"));
        }
        let simbolo = CoaxialSymbol::new(nombre, longitud, location);
        self.coaxiales.push(simbolo);
        Ok(())
    }

    /// The coaxial segment with the given name, if any.
    pub fn obtener_coaxial(&self, nombre: &str) -> (r: Option<&CoaxialSymbol>)
        ensures
            match r {
                Some(c) => spec_sym_coaxial(self.coaxiales@, nombre@) matches Some(i) && 0 <= i
                    < self.coaxiales@.len() && self.coaxiales@[i] == *c && self.coaxiales@[
                    i].nombre@ == nombre@,
                None => spec_sym_coaxial(self.coaxiales@, nombre@) is None && forall|i: int|
                    0 <= i < self.coaxiales@.len() ==> (#[trigger] self.coaxiales@[i]).nombre@
                    != nombre@,
            },
    {
        let clave = String::from_str(nombre);
        match self.indice_coaxial(&clave) {
            Some(i) => Some(&self.coaxiales[i]),
            None => None,
        }
    }


    /// Mutable access to the machine with the given name. The caller sees
    /// exactly which entry the handed-out borrow replaces.
    pub fn obtener_maquina_mut(&mut self, nombre: &str) -> (r: Option<&mut MaquinaSymbol>)
        ensures
            r is None ==> *final(self) == *old(self) && (forall|i: int|
                0 <= i < old(self).maquinas@.len() ==> (
                #[trigger] old(self).maquinas@[i]).nombre@ != nombre@),
            r matches Some(m) ==> exists|i: int|
                {
                    &&& 0 <= i < old(self).maquinas@.len()
                    &&& (#[trigger] old(self).maquinas@[i]).nombre@ == nombre@
                    &&& *m == old(self).maquinas@[i]
                    &&& final(self).maquinas@ == old(self).maquinas@.update(i, *final(m))
                    &&& final(self).concentradores == old(self).concentradores
                    &&& final(self).coaxiales == old(self).coaxiales
                    &&& final(self).modulos == old(self).modulos
                },
    {
        let clave = String::from_str(nombre);
        match self.indice_maquina(&clave) {
            Some(i) => {
                let ghost idx = i as int;
                let m = Some(&mut self.maquinas[i]);
                proof {
                    assert(0 <= idx < old(self).maquinas@.len() && old(self).maquinas@[
                        idx].nombre@ == nombre@);
                }
                m
            }
            None => None,
        }
    }

    /// Mutable access to the concentrator with the given name.
    pub fn obtener_concentrador_mut(&mut self, nombre: &str) -> (r: Option<&mut ConcentradorSymbol>)
        ensures
            r is None ==> *final(self) == *old(self) && (forall|i: int|
                0 <= i < old(self).concentradores@.len() ==> (
                #[trigger] old(self).concentradores@[i]).nombre@ != nombre@),
            r matches Some(m) ==> exists|i: int|
                {
                    &&& 0 <= i < old(self).concentradores@.len()
                    &&& (#[trigger] old(self).concentradores@[i]).nombre@ == nombre@
                    &&& *m == old(self).concentradores@[i]
                    &&& final(self).concentradores@ == old(self).concentradores@.update(i, *final(
                        m))
                    &&& final(self).maquinas == old(self).maquinas
                    &&& final(self).coaxiales == old(self).coaxiales
                    &&& final(self).modulos == old(self).modulos
                },
    {
        let clave = String::from_str(nombre);
        match self.indice_concentrador(&clave) {
            Some(i) => {
                let ghost idx = i as int;
                let m = Some(&mut self.concentradores[i]);
                proof {
                    assert(0 <= idx < old(self).concentradores@.len() && old(self).concentradores@[
                        idx].nombre@ == nombre@);
                }
                m
            }
            None => None,
        }
    }

    /// Mutable access to the coaxial segment with the given name.
    pub fn obtener_coaxial_mut(&mut self, nombre: &str) -> (r: Option<&mut CoaxialSymbol>)
        ensures
            r is None ==> *final(self) == *old(self) && (forall|i: int|
                0 <= i < old(self).coaxiales@.len() ==> (
                #[trigger] old(self).coaxiales@[i]).nombre@ != nombre@),
            r matches Some(m) ==> exists|i: int|
                {
                    &&& 0 <= i < old(self).coaxiales@.len()
                    &&& (#[trigger] old(self).coaxiales@[i]).nombre@ == nombre@
                    &&& *m == old(self).coaxiales@[i]
                    &&& final(self).coaxiales@ == old(self).coaxiales@.update(i, *final(m))
                    &&& final(self).maquinas == old(self).maquinas
                    &&& final(self).concentradores == old(self).concentradores
                    &&& final(self).modulos == old(self).modulos
                },
    {
        let clave = String::from_str(nombre);
        match self.indice_coaxial(&clave) {
            Some(i) => {
                let ghost idx = i as int;
                let m = Some(&mut self.coaxiales[i]);
                proof {
                    assert(0 <= idx < old(self).coaxiales@.len() && old(self).coaxiales@[
                        idx].nombre@ == nombre@);
                }
                m
            }
            None => None,
        }
    }

    /// Registers a named block; duplicate names are rejected and change
    /// nothing.
    pub fn definir_modulo(&mut self, nombre: String, location: Location) -> (r: Result<
        (),
        String,
    >)
        requires
            old(self).wf(),
        ensures
            final(self).wf(),
            r is Ok <==> (forall|i: int| 0 <= i < old(self).modulos@.len() ==> (
                #[trigger] old(self).modulos@[i]).0@ != nombre@),
            r is Ok ==> final(self).modulos@ == old(self).modulos@.push((nombre, location))
                && final(self).maquinas == old(self).maquinas && final(self).concentradores == old(
                self).concentradores && final(self).coaxiales == old(self).coaxiales,
            r is Err ==> *final(self) == *old(self),
    {
        let mut i: usize = 0;
        while i < self.modulos.len()
            invariant
                old(self).wf(),
                *self == *old(self),
                i <= self.modulos@.len(),
                forall|j: int| 0 <= j < i ==> (#[trigger] self.modulos@[j]).0@ != nombre@,
            decreases self.modulos@.len() - i,
        {
            if self.modulos[i].0.eq(&nombre) {
                return Err(String::from_str("Módulo '").concat(nombre.as_str()).concat(
                    "' ya fue definido"));
            }
            i = i + 1;
        }
        self.modulos.push((nombre, location));
        Ok(())
    }

    /// Whether a block with this name is registered.
    pub fn existe_modulo(&self, nombre: &str) -> (r: bool)
        ensures
            r == exists|i: int|
                0 <= i < self.modulos@.len() && (#[trigger] self.modulos@[i]).0@ == nombre@,
    {
        let clave = String::from_str(nombre);
        let mut i: usize = 0;
        while i < self.modulos.len()
            invariant
                i <= self.modulos@.len(),
                clave@ == nombre@,
                forall|j: int| 0 <= j < i ==> (#[trigger] self.modulos@[j]).0@ != nombre@,
            decreases self.modulos@.len() - i,
        {
            if self.modulos[i].0.eq(&clave) {
                return true;
            }
            i = i + 1;
        }
        false
    }
}

/// A semantic error with its source location. These accumulate: the analysis
/// reports every declaration and type problem of a run at once.
#[derive(Debug, Clone, PartialEq)]
pub struct SemanticError {
    pub message: String,
    pub location: Location,
}

impl SemanticError {
    pub fn new(message: String, location: Location) -> (r: SemanticError)
        ensures
            r.message == message,
            r.location == location,
    {
        SemanticError { message, location }
    }
}

/// A copy of an error list, equal element by element.
fn clonar_errores(v: &Vec<SemanticError>) -> (r: Vec<SemanticError>)
    ensures
        r@ == v@,
{
    let mut r: Vec<SemanticError> = Vec::new();
    let mut i: usize = 0;
    while i < v.len()
        invariant
            i <= v@.len(),
            r@ == v@.subrange(0, i as int),
        decreases v@.len() - i,
    {
        let e = SemanticError { message: v[i].message.clone(), location: v[i].location };
        proof {
            assert(e == v@[i as int]);
        }
        r.push(e);
        i = i + 1;
        proof {
            assert(r@ =~= v@.subrange(0, i as int));
        }
    }
    proof {
        assert(r@ =~= v@);
    }
    r
}


/// The first machine symbol with the given name, by index.
pub open spec fn spec_sym_maquina(ms: Seq<MaquinaSymbol>, nombre: Seq<char>) -> Option<int>
    decreases ms.len(),
{
    if ms.len() == 0 {
        None
    } else if ms.first().nombre@ == nombre {
        Some(0)
    } else {
        match spec_sym_maquina(ms.drop_first(), nombre) {
            Some(i) => Some(i + 1),
            None => None,
        }
    }
}

/// The first concentrator symbol with the given name, by index.
pub open spec fn spec_sym_concentrador(cs: Seq<ConcentradorSymbol>, nombre: Seq<char>) -> Option<
    int,
>
    decreases cs.len(),
{
    if cs.len() == 0 {
        None
    } else if cs.first().nombre@ == nombre {
        Some(0)
    } else {
        match spec_sym_concentrador(cs.drop_first(), nombre) {
            Some(i) => Some(i + 1),
            None => None,
        }
    }
}

/// The first coaxial symbol with the given name, by index.
pub open spec fn spec_sym_coaxial(cs: Seq<CoaxialSymbol>, nombre: Seq<char>) -> Option<int>
    decreases cs.len(),
{
    if cs.len() == 0 {
        None
    } else if cs.first().nombre@ == nombre {
        Some(0)
    } else {
        match spec_sym_coaxial(cs.drop_first(), nombre) {
            Some(i) => Some(i + 1),
            None => None,
        }
    }
}

/// A scan that found a first match agrees with the spec lookup.
proof fn lemma_sym_maquina(ms: Seq<MaquinaSymbol>, nombre: Seq<char>, i: int)
    requires
        0 <= i < ms.len(),
        ms[i].nombre@ == nombre,
        forall|j: int| 0 <= j < i ==> (#[trigger] ms[j]).nombre@ != nombre,
    ensures
        spec_sym_maquina(ms, nombre) == Some(i),
    decreases ms.len(),
{
    if i > 0 {
        lemma_sym_maquina(ms.drop_first(), nombre, i - 1);
    }
}

/// A scan without a match agrees with the spec lookup.
proof fn lemma_sym_maquina_none(ms: Seq<MaquinaSymbol>, nombre: Seq<char>)
    requires
        forall|j: int| 0 <= j < ms.len() ==> (#[trigger] ms[j]).nombre@ != nombre,
    ensures
        spec_sym_maquina(ms, nombre) is None,
    decreases ms.len(),
{
    if ms.len() > 0 {
        lemma_sym_maquina_none(ms.drop_first(), nombre);
    }
}

/// A scan that found a first match agrees with the spec lookup.
proof fn lemma_sym_concentrador(cs: Seq<ConcentradorSymbol>, nombre: Seq<char>, i: int)
    requires
        0 <= i < cs.len(),
        cs[i].nombre@ == nombre,
        forall|j: int| 0 <= j < i ==> (#[trigger] cs[j]).nombre@ != nombre,
    ensures
        spec_sym_concentrador(cs, nombre) == Some(i),
    decreases cs.len(),
{
    if i > 0 {
        lemma_sym_concentrador(cs.drop_first(), nombre, i - 1);
    }
}

/// A scan without a match agrees with the spec lookup.
proof fn lemma_sym_concentrador_none(cs: Seq<ConcentradorSymbol>, nombre: Seq<char>)
    requires
        forall|j: int| 0 <= j < cs.len() ==> (#[trigger] cs[j]).nombre@ != nombre,
    ensures
        spec_sym_concentrador(cs, nombre) is None,
    decreases cs.len(),
{
    if cs.len() > 0 {
        lemma_sym_concentrador_none(cs.drop_first(), nombre);
    }
}

/// A scan that found a first match agrees with the spec lookup.
proof fn lemma_sym_coaxial(cs: Seq<CoaxialSymbol>, nombre: Seq<char>, i: int)
    requires
        0 <= i < cs.len(),
        cs[i].nombre@ == nombre,
        forall|j: int| 0 <= j < i ==> (#[trigger] cs[j]).nombre@ != nombre,
    ensures
        spec_sym_coaxial(cs, nombre) == Some(i),
    decreases cs.len(),
{
    if i > 0 {
        lemma_sym_coaxial(cs.drop_first(), nombre, i - 1);
    }
}

/// A scan without a match agrees with the spec lookup.
proof fn lemma_sym_coaxial_none(cs: Seq<CoaxialSymbol>, nombre: Seq<char>)
    requires
        forall|j: int| 0 <= j < cs.len() ==> (#[trigger] cs[j]).nombre@ != nombre,
    ensures
        spec_sym_coaxial(cs, nombre) is None,
    decreases cs.len(),
{
    if cs.len() > 0 {
        lemma_sym_coaxial_none(cs.drop_first(), nombre);
    }
}

/// The type of an expression over a symbol table: literals by their own
/// kind, identifiers by the network object they
/// name, field accesses by the fixed field vocabulary, indexed accesses as
/// booleans over a concentrator's `p` array, and every operator boolean.
/// `Unknown` stands where a rule is violated; the violation itself is
/// accumulated as an error.
pub open spec fn spec_tipo(t: SymbolTable, e: Expr) -> Type {
    match e {
        Expr::Numero(_) => Type::Int,
        Expr::Cadena(_) => Type::Cadena,
        Expr::Identificador(nombre) => if spec_sym_maquina(t.maquinas@, nombre@) is Some {
            Type::Maquina
        } else if spec_sym_concentrador(t.concentradores@, nombre@) is Some {
            Type::Concentrador
        } else if spec_sym_coaxial(t.coaxiales@, nombre@) is Some {
            Type::Coaxial
        } else {
            Type::Unknown
        },
        Expr::AccesoCampo { objeto, campo } => if spec_sym_concentrador(t.concentradores@,
            objeto@) is Some {
            if campo@ == "puertos"@ || campo@ == "disponibles"@ || campo@ == "presente"@ || campo@
                == "coaxial"@ {
                Type::Int
            } else {
                Type::Unknown
            }
        } else if spec_sym_coaxial(t.coaxiales@, objeto@) is Some {
            if campo@ == "longitud"@ || campo@ == "completo"@ || campo@ == "num"@ || campo@
                == "presente"@ {
                Type::Int
            } else {
                Type::Unknown
            }
        } else {
            Type::Unknown
        },
        Expr::AccesoArreglo { objeto, .. } => {
            let partes = crate::texto::spec_dividida(objeto@, '.');
            if partes.len() == 2 && partes[1] == "p"@ {
                if spec_sym_concentrador(t.concentradores@, partes[0]) is Some {
                    Type::Bool
                } else {
                    Type::Unknown
                }
            } else {
                Type::Unknown
            }
        },
        Expr::Relacional { .. } => Type::Bool,
        Expr::Logico { .. } => Type::Bool,
        Expr::Not(_) => Type::Bool,
    }
}

/// Whether a block name is registered.
pub open spec fn spec_buscar_modulo(ms: Seq<(String, Location)>, nombre: Seq<char>) -> bool
    decreases ms.len(),
{
    if ms.len() == 0 {
        false
    } else if ms.first().0@ == nombre {
        true
    } else {
        spec_buscar_modulo(ms.drop_first(), nombre)
    }
}

/// An entry with the name makes the lookup succeed.
proof fn lemma_buscar_modulo_en(ms: Seq<(String, Location)>, nombre: Seq<char>, i: int)
    requires
        0 <= i < ms.len(),
        ms[i].0@ == nombre,
    ensures
        spec_buscar_modulo(ms, nombre),
    decreases ms.len(),
{
    if i > 0 {
        lemma_buscar_modulo_en(ms.drop_first(), nombre, i - 1);
    }
}

/// Appending an entry keeps every registered name registered.
proof fn lemma_buscar_modulo_push(ms: Seq<(String, Location)>, x: (String, Location), nombre: Seq<
    char,
>)
    requires
        spec_buscar_modulo(ms, nombre),
    ensures
        spec_buscar_modulo(ms.push(x), nombre),
    decreases ms.len(),
{
    if ms.len() > 0 {
        assert(ms.push(x)[0] == ms[0]);
        if ms.first().0@ != nombre {
            assert(ms.push(x).drop_first() =~= ms.drop_first().push(x));
            lemma_buscar_modulo_push(ms.drop_first(), x, nombre);
        }
    }
}

/// A successful lookup names an actual entry.
proof fn lemma_buscar_modulo_indice(ms: Seq<(String, Location)>, nombre: Seq<char>)
    requires
        spec_buscar_modulo(ms, nombre),
    ensures
        exists|j: int| 0 <= j < ms.len() && (#[trigger] ms[j]).0@ == nombre,
    decreases ms.len(),
{
    if ms.len() > 0 && ms.first().0@ != nombre {
        lemma_buscar_modulo_indice(ms.drop_first(), nombre);
        let j = choose|j: int|
            0 <= j < ms.drop_first().len() && (#[trigger] ms.drop_first()[j]).0@ == nombre;
        assert(ms[j + 1].0@ == nombre);
    }
}

/// Declared forward and mutual block references are never the
/// undefined-module case: in a table that registers every declared block
/// name, as `analyze` leaves it before and after the bodies are checked, a
/// call to a declared block finds a registered entry, which is exactly the
/// condition under which checking the call reports nothing.
pub proof fn lemma_llamada_declarada_registrada(
    t: SymbolTable,
    ms: Seq<crate::ast::Modulo>,
    nombre: Seq<char>,
)
    requires
        modulos_registrados_hasta(t, ms, ms.len() as int),
        exists|q: int| 0 <= q < ms.len() && (#[trigger] ms[q]).nombre@ == nombre,
    ensures
        exists|j: int| 0 <= j < t.modulos@.len() && (#[trigger] t.modulos@[j]).0@ == nombre,
{
    let q = choose|q: int| 0 <= q < ms.len() && (#[trigger] ms[q]).nombre@ == nombre;
    assert(spec_buscar_modulo(t.modulos@, ms[q].nombre@));
    lemma_buscar_modulo_indice(t.modulos@, nombre);
}

/// The first `n` declared blocks all have their names registered in the
/// table.
pub open spec fn modulos_registrados_hasta(
    t: SymbolTable,
    ms: Seq<crate::ast::Modulo>,
    n: int,
) -> bool {
    forall|q: int| 0 <= q < n && q < ms.len() ==> spec_buscar_modulo(t.modulos@, (
    #[trigger] ms[q]).nombre@)
}

/// Whether an identifier names some network object.
pub open spec fn identificador_definido(t: SymbolTable, nombre: Seq<char>) -> bool {
    ||| spec_sym_maquina(t.maquinas@, nombre) is Some
    ||| spec_sym_concentrador(t.concentradores@, nombre) is Some
    ||| spec_sym_coaxial(t.coaxiales@, nombre) is Some
}

/// The field vocabulary of a concentrator.
pub open spec fn campo_de_concentrador(campo: Seq<char>) -> bool {
    ||| campo == "puertos"@
    ||| campo == "disponibles"@
    ||| campo == "presente"@
    ||| campo == "coaxial"@
}

/// The field vocabulary of a coaxial segment.
pub open spec fn campo_de_coaxial(campo: Seq<char>) -> bool {
    ||| campo == "longitud"@
    ||| campo == "completo"@
    ||| campo == "num"@
    ||| campo == "presente"@
}

/// Whether a field access is well formed: the object is a concentrator with
/// one of its four fields, or a coaxial segment with one of its four.
pub open spec fn acceso_campo_valido(t: SymbolTable, objeto: Seq<char>, campo: Seq<char>) -> bool {
    if spec_sym_concentrador(t.concentradores@, objeto) is Some {
        campo_de_concentrador(campo)
    } else if spec_sym_coaxial(t.coaxiales@, objeto) is Some {
        campo_de_coaxial(campo)
    } else {
        false
    }
}

/// How many errors typing an expression reports: one per undefined
/// identifier, invalid field name or malformed array access, one per
/// incomparable operand pair, plus those of the nested checks.
pub open spec fn spec_errores_expr(t: SymbolTable, e: Expr) -> nat
    decreases e, 0int,
{
    match e {
        Expr::Numero(_) => 0,
        Expr::Cadena(_) => 0,
        Expr::Identificador(nombre) => if identificador_definido(t, nombre@) {
            0nat
        } else {
            1nat
        },
        Expr::AccesoCampo { objeto, campo } => if acceso_campo_valido(t, objeto@, campo@) {
            0nat
        } else {
            1nat
        },
        Expr::AccesoArreglo { objeto, indice } => {
            let partes = crate::texto::spec_dividida(objeto@, '.');
            spec_errores_check(t, *indice, Type::Int) + if partes.len() == 2 && partes[1]
                == "p"@ {
                if spec_sym_concentrador(t.concentradores@, partes[0]) is Some {
                    0nat
                } else {
                    1nat
                }
            } else if partes.len() >= 2 {
                1nat
            } else {
                0nat
            }
        },
        Expr::Relacional { izq, der, .. } => spec_errores_expr(t, *izq) + spec_errores_expr(t,
            *der) + if spec_tipo(t, *izq) != Type::Unknown && spec_tipo(t, *der) != Type::Unknown
            && !spec_compatibles(spec_tipo(t, *izq), spec_tipo(t, *der)) {
            1nat
        } else {
            0nat
        },
        Expr::Logico { izq, der, .. } => spec_errores_check(t, *izq, Type::Bool)
            + spec_errores_check(t, *der, Type::Bool),
        Expr::Not(inner) => spec_errores_check(t, *inner, Type::Bool),
    }
}

/// How many errors checking an expression against an expected type reports:
/// its typing errors, plus one when both types are known and incompatible.
pub open spec fn spec_errores_check(t: SymbolTable, e: Expr, esperado: Type) -> nat
    decreases e, 1int,
{
    spec_errores_expr(t, e) + if esperado != Type::Unknown && spec_tipo(t, e) != Type::Unknown
        && !spec_compatibles(spec_tipo(t, e), esperado) {
        1nat
    } else {
        0nat
    }
}

/// One definitional unfolding of the typing error count.
pub proof fn lemma_errores_def(t: SymbolTable, e: Expr)
    ensures
        spec_errores_expr(t, e) == (match e {
            Expr::Numero(_) => 0nat,
            Expr::Cadena(_) => 0nat,
            Expr::Identificador(nombre) => if identificador_definido(t, nombre@) {
                0nat
            } else {
                1nat
            },
            Expr::AccesoCampo { objeto, campo } => if acceso_campo_valido(t, objeto@, campo@) {
                0nat
            } else {
                1nat
            },
            Expr::AccesoArreglo { objeto, indice } => {
                let partes = crate::texto::spec_dividida(objeto@, '.');
                spec_errores_check(t, *indice, Type::Int) + if partes.len() == 2 && partes[1]
                    == "p"@ {
                    if spec_sym_concentrador(t.concentradores@, partes[0]) is Some {
                        0nat
                    } else {
                        1nat
                    }
                } else if partes.len() >= 2 {
                    1nat
                } else {
                    0nat
                }
            },
            Expr::Relacional { izq, der, .. } => spec_errores_expr(t, *izq) + spec_errores_expr(
                t, *der) + if spec_tipo(t, *izq) != Type::Unknown && spec_tipo(t, *der)
                != Type::Unknown && !spec_compatibles(spec_tipo(t, *izq), spec_tipo(t, *der)) {
                1nat
            } else {
                0nat
            },
            Expr::Logico { izq, der, .. } => spec_errores_check(t, *izq, Type::Bool)
                + spec_errores_check(t, *der, Type::Bool),
            Expr::Not(inner) => spec_errores_check(t, *inner, Type::Bool),
        }),
{
}

/// One definitional unfolding of the checked error count.
pub proof fn lemma_errores_check_def(t: SymbolTable, e: Expr, esperado: Type)
    ensures
        spec_errores_check(t, e, esperado) == spec_errores_expr(t, e) + if esperado
            != Type::Unknown && spec_tipo(t, e) != Type::Unknown && !spec_compatibles(spec_tipo(
            t, e), esperado) {
            1nat
        } else {
            0nat
        },
{
}

/// The positions of an assignment list.
pub open spec fn posiciones_de(l: Seq<(String, i32)>) -> Seq<i32> {
    l.map_values(|p: (String, i32)| p.1)
}

/// Unique coaxial keys in the shadow table.
pub open spec fn claves_asig_unicas(asigs: Seq<(String, Vec<(String, i32)>)>) -> bool {
    forall|k: int, l: int| 0 <= k < l < asigs.len() ==> (#[trigger] asigs[k]).0@ != (
    #[trigger] asigs[l]).0@
}

/// One shadow entry names a declared coaxial segment and respects its
/// spacing discipline.
pub open spec fn entrada_valida(
    coaxiales: Seq<CoaxialSymbol>,
    entrada: (String, Vec<(String, i32)>),
) -> bool {
    exists|i: int|
        0 <= i < coaxiales.len() && (#[trigger] coaxiales[i]).nombre@ == entrada.0@
            && lista_espaciada(posiciones_de(entrada.1@), coaxiales[i].longitud as int)
}

/// Every shadow entry names a declared coaxial segment and respects its
/// spacing discipline.
pub open spec fn asignaciones_validas(
    coaxiales: Seq<CoaxialSymbol>,
    asigs: Seq<(String, Vec<(String, i32)>)>,
) -> bool {
    forall|k: int| 0 <= k < asigs.len() ==> entrada_valida(coaxiales, #[trigger] asigs[k])
}

/// The first shadow entry recorded for a coaxial name.
pub open spec fn spec_asig_indice(
    asigs: Seq<(String, Vec<(String, i32)>)>,
    nombre: Seq<char>,
) -> Option<int>
    decreases asigs.len(),
{
    if asigs.len() == 0 {
        None
    } else if asigs.first().0@ == nombre {
        Some(0)
    } else {
        match spec_asig_indice(asigs.drop_first(), nombre) {
            Some(i) => Some(i + 1),
            None => None,
        }
    }
}

/// The placements recorded for a coaxial name: its shadow list, or empty
/// when no placement was recorded yet.
pub open spec fn spec_lista_asig(
    asigs: Seq<(String, Vec<(String, i32)>)>,
    nombre: Seq<char>,
) -> Seq<(String, i32)> {
    match spec_asig_indice(asigs, nombre) {
        Some(e) => asigs[e].1@,
        None => Seq::empty(),
    }
}

/// Whether a position lies within three meters of some recorded placement.
pub open spec fn hay_conflicto(lista: Seq<(String, i32)>, posicion: int) -> bool {
    exists|j: int| 0 <= j < lista.len() && -3 < (#[trigger] lista[j]).1 - posicion < 3
}

/// A scan that found a first match agrees with the shadow lookup.
proof fn lemma_asig_indice(asigs: Seq<(String, Vec<(String, i32)>)>, nombre: Seq<char>, i: int)
    requires
        0 <= i < asigs.len(),
        asigs[i].0@ == nombre,
        forall|j: int| 0 <= j < i ==> (#[trigger] asigs[j]).0@ != nombre,
    ensures
        spec_asig_indice(asigs, nombre) == Some(i),
    decreases asigs.len(),
{
    if i > 0 {
        lemma_asig_indice(asigs.drop_first(), nombre, i - 1);
    }
}

/// A scan without a match agrees with the shadow lookup.
proof fn lemma_asig_indice_none(asigs: Seq<(String, Vec<(String, i32)>)>, nombre: Seq<char>)
    requires
        forall|j: int| 0 <= j < asigs.len() ==> (#[trigger] asigs[j]).0@ != nombre,
    ensures
        spec_asig_indice(asigs, nombre) is None,
    decreases asigs.len(),
{
    if asigs.len() > 0 {
        lemma_asig_indice_none(asigs.drop_first(), nombre);
    }
}

/// A found shadow entry is in bounds, carries the looked-up name, and is
/// the first entry that does.
proof fn lemma_asig_caracteriza(asigs: Seq<(String, Vec<(String, i32)>)>, nombre: Seq<char>)
    ensures
        spec_asig_indice(asigs, nombre) matches Some(i) ==> 0 <= i < asigs.len() && asigs[
            i].0@ == nombre && forall|j: int| 0 <= j < i ==> (#[trigger] asigs[j]).0@ != nombre,
    decreases asigs.len(),
{
    if asigs.len() > 0 && asigs.first().0@ != nombre {
        lemma_asig_caracteriza(asigs.drop_first(), nombre);
        if spec_asig_indice(asigs, nombre) is Some {
            let i = spec_asig_indice(asigs, nombre)->0;
            assert(asigs[i] == asigs.drop_first()[i - 1]);
            assert forall|j: int| 0 <= j < i implies (#[trigger] asigs[j]).0@ != nombre by {
                if j > 0 {
                    assert(asigs[j] == asigs.drop_first()[j - 1]);
                }
            }
        }
    }
}

/// An absent shadow entry means no entry carries the name.
proof fn lemma_asig_ninguno(asigs: Seq<(String, Vec<(String, i32)>)>, nombre: Seq<char>)
    ensures
        spec_asig_indice(asigs, nombre) is None ==> forall|j: int|
            0 <= j < asigs.len() ==> (#[trigger] asigs[j]).0@ != nombre,
    decreases asigs.len(),
{
    if asigs.len() > 0 && asigs.first().0@ != nombre {
        lemma_asig_ninguno(asigs.drop_first(), nombre);
        if spec_asig_indice(asigs, nombre) is None {
            assert forall|j: int|
                0 <= j < asigs.len() implies (#[trigger] asigs[j]).0@ != nombre by {
                if j > 0 {
                    assert(asigs[j] == asigs.drop_first()[j - 1]);
                }
            }
        }
    }
}

/// Appending declarations never invalidates the shadow entries: their
/// witnesses are stable.
pub proof fn lemma_asignaciones_estables(
    viejas: Seq<CoaxialSymbol>,
    nuevas: Seq<CoaxialSymbol>,
    asigs: Seq<(String, Vec<(String, i32)>)>,
)
    requires
        asignaciones_validas(viejas, asigs),
        viejas.len() <= nuevas.len(),
        forall|i: int| 0 <= i < viejas.len() ==> (#[trigger] nuevas[i]) == viejas[i],
    ensures
        asignaciones_validas(nuevas, asigs),
{
    assert forall|k: int| 0 <= k < asigs.len() implies entrada_valida(nuevas,
        #[trigger] asigs[k]) by {
        assert(entrada_valida(viejas, asigs[k]));
        let i = choose|i: int|
            0 <= i < viejas.len() && (#[trigger] viejas[i]).nombre@ == asigs[k].0@
                && lista_espaciada(posiciones_de(asigs[k].1@), viejas[i].longitud as int);
        assert(nuevas[i] == viejas[i]);
        assert(0 <= i < nuevas.len() && nuevas[i].nombre@ == asigs[k].0@ && lista_espaciada(
            posiciones_de(asigs[k].1@), nuevas[i].longitud as int));
    }
}

/// The semantic analyzer: the symbol table under construction, the
/// accumulated errors, and a shadow table of coaxial placements used to
/// pre-validate the Ethernet spacing rules for literal positions.
pub struct SemanticAnalyzer {
    pub symbol_table: SymbolTable,
    pub errors: Vec<SemanticError>,
    pub coaxial_assignments: Vec<(String, Vec<(String, i32)>)>,
}


/// How checking one statement relates the analyzer before it to the
/// analyzer after it: the symbol table is read, never changed; errors are
/// appended, one per rule the statement violates, exactly as
/// `analyze_statement` guarantees. Written over analyzer values so the
/// block and program folds can chain it.
pub open spec fn relacion_analisis(a: SemanticAnalyzer, d: SemanticAnalyzer, s: Statement) -> bool {
    &&& d.symbol_table == a.symbol_table
    &&& a.errors@.is_prefix_of(d.errors@)
    &&& (s matches Statement::LlamadaModulo { nombre, .. } ==> ({
                let hay = exists|j: int|
                    0 <= j < a.symbol_table.modulos@.len() && (
                    #[trigger] a.symbol_table.modulos@[j]).0@ == nombre@;
                &&& (hay ==> d == a)
                &&& (!hay ==> d.errors@.len() == a.errors@.len() + 1 && d.coaxial_assignments == a.coaxial_assignments)
            }))
    &&& (s matches Statement::Coloca { objeto, x, y, .. } ==> d.errors@.len()
                == a.errors@.len() + (if spec_sym_maquina(a.symbol_table.maquinas@, objeto@) is Some || spec_sym_concentrador(a.symbol_table.concentradores@, objeto@) is Some {
                0nat
            } else {
                1nat
            }) + spec_errores_check(a.symbol_table, x, Type::Int) + spec_errores_check(
                a.symbol_table, y, Type::Int))
    &&& (s matches Statement::ColocaCoaxial { coaxial, x, y, .. } ==> d.errors@.len() == a.errors@.len() + (if spec_sym_coaxial(a.symbol_table.coaxiales@, coaxial@) is Some {
                0nat
            } else {
                1nat
            }) + spec_errores_check(a.symbol_table, x, Type::Int) + spec_errores_check(
                a.symbol_table, y, Type::Int))
    &&& (s matches Statement::ColocaCoaxialConcentrador { coaxial, concentrador, .. }
                ==> ({
                let b = spec_sym_concentrador(a.symbol_table.concentradores@,
                    concentrador@);
                d.errors@.len() == a.errors@.len() + (if spec_sym_coaxial(a.symbol_table.coaxiales@, coaxial@) is Some {
                    0nat
                } else {
                    1nat
                }) + (if b is Some {
                    0nat
                } else {
                    1nat
                }) + (if b is Some && !a.symbol_table.concentradores@[
                    b->0].tiene_coaxial {
                    1nat
                } else {
                    0nat
                })
            }))
    &&& (s matches Statement::UneMaquinaPuerto { maquina, concentrador, puerto, .. }
                ==> d.errors@.len() == a.errors@.len() + (
            if identificador_definido(a.symbol_table, maquina@) {
                0nat
            } else {
                1nat
            }) + (if spec_sym_concentrador(a.symbol_table.concentradores@,
                concentrador@) is Some {
                0nat
            } else {
                1nat
            }) + spec_errores_check(a.symbol_table, puerto, Type::Int))
    &&& (s matches Statement::AsignaPuerto { maquina, concentrador, .. } ==> d.errors@.len() == a.errors@.len() + (if identificador_definido(a.symbol_table, maquina@) {
                0nat
            } else {
                1nat
            }) + (if spec_sym_concentrador(a.symbol_table.concentradores@,
                concentrador@) is Some {
                0nat
            } else {
                1nat
            }))
    &&& (s matches Statement::MaquinaCoaxial { maquina, coaxial, posicion, .. } ==> ({
                let t = a.symbol_table;
                let b = spec_sym_coaxial(t.coaxiales@, coaxial@);
                d.errors@.len() == a.errors@.len() + (if spec_sym_maquina(
                    t.maquinas@, maquina@) is Some {
                    0nat
                } else {
                    1nat
                }) + (if b is Some {
                    0nat
                } else {
                    1nat
                }) + spec_errores_check(t, posicion, Type::Int) + (if spec_tipo(t, posicion)
                    == Type::Int && posicion is Numero && b is Some && ({
                    let v = posicion->Numero_0;
                    v < 0 || v > t.coaxiales@[b->0].longitud || hay_conflicto(spec_lista_asig(
                        a.coaxial_assignments@, coaxial@), v as int)
                }) {
                    1nat
                } else {
                    0nat
                })
            }))
    &&& (s matches Statement::AsignaMaquinaCoaxial { maquina, coaxial, .. } ==> d.errors@.len() == a.errors@.len() + (if spec_sym_maquina(a.symbol_table.maquinas@, maquina@) is Some {
                0nat
            } else {
                1nat
            }) + (if spec_sym_coaxial(a.symbol_table.coaxiales@, coaxial@) is Some {
                0nat
            } else {
                1nat
            }))
    &&& (s matches Statement::Escribe { contenido, .. } ==> d.errors@.len()
                == a.errors@.len() + spec_errores_expr(a.symbol_table,
                contenido))
}

/// A statement list checked in order: each statement relates one analyzer
/// state to the next.
pub open spec fn analisis_sentencias(
    a: SemanticAnalyzer,
    d: SemanticAnalyzer,
    ss: Seq<Statement>,
) -> bool
    decreases ss.len(),
{
    if ss.len() == 0 {
        d == a
    } else {
        exists|m: SemanticAnalyzer|
            #[trigger] relacion_analisis(a, m, ss.first()) && analisis_sentencias(m, d,
                ss.drop_first())
    }
}

/// The declared blocks' bodies checked in order, each as a statement list.
pub open spec fn analisis_bloques(
    a: SemanticAnalyzer,
    d: SemanticAnalyzer,
    ms: Seq<crate::ast::Modulo>,
) -> bool
    decreases ms.len(),
{
    if ms.len() == 0 {
        d == a
    } else {
        exists|m: SemanticAnalyzer|
            #[trigger] analisis_sentencias(a, m, ms.first().sentencias@) && analisis_bloques(m,
                d, ms.drop_first())
    }
}

/// A checked run extends by one more checked statement.
proof fn lemma_analisis_empuja(
    a: SemanticAnalyzer,
    m: SemanticAnalyzer,
    d: SemanticAnalyzer,
    pre: Seq<Statement>,
    s: Statement,
)
    requires
        analisis_sentencias(a, m, pre),
        relacion_analisis(m, d, s),
    ensures
        analisis_sentencias(a, d, pre.push(s)),
    decreases pre.len(),
{
    if pre.len() == 0 {
        assert(m == a);
        assert(pre.push(s).first() == s);
        assert(pre.push(s).drop_first() =~= Seq::<Statement>::empty());
        assert(analisis_sentencias(d, d, pre.push(s).drop_first()));
    } else {
        let m1 = choose|m1: SemanticAnalyzer|
            #[trigger] relacion_analisis(a, m1, pre.first()) && analisis_sentencias(m1, m,
                pre.drop_first());
        lemma_analisis_empuja(m1, m, d, pre.drop_first(), s);
        assert(pre.push(s).first() == pre.first());
        assert(pre.push(s).drop_first() =~= pre.drop_first().push(s));
    }
}

/// A checked run of blocks extends by one more checked block.
proof fn lemma_bloques_empuja(
    a: SemanticAnalyzer,
    m: SemanticAnalyzer,
    d: SemanticAnalyzer,
    pre: Seq<crate::ast::Modulo>,
    b: crate::ast::Modulo,
)
    requires
        analisis_bloques(a, m, pre),
        analisis_sentencias(m, d, b.sentencias@),
    ensures
        analisis_bloques(a, d, pre.push(b)),
    decreases pre.len(),
{
    if pre.len() == 0 {
        assert(m == a);
        assert(pre.push(b).first() == b);
        assert(pre.push(b).drop_first() =~= Seq::<crate::ast::Modulo>::empty());
        assert(analisis_bloques(d, d, pre.push(b).drop_first()));
    } else {
        let m1 = choose|m1: SemanticAnalyzer|
            #[trigger] analisis_sentencias(a, m1, pre.first().sentencias@) && analisis_bloques(
                m1, m, pre.drop_first());
        lemma_bloques_empuja(m1, m, d, pre.drop_first(), b);
        assert(pre.push(b).first() == pre.first());
        assert(pre.push(b).drop_first() =~= pre.drop_first().push(b));
    }
}

impl SemanticAnalyzer {
    /// The table is well formed, and every shadow entry belongs to a
    /// declared coaxial segment and respects its spacing discipline: the
    /// analysis-side spacing invariant.
    pub open spec fn wf(self) -> bool {
        &&& self.symbol_table.wf()
        &&& claves_asig_unicas(self.coaxial_assignments@)
        &&& asignaciones_validas(self.symbol_table.coaxiales@, self.coaxial_assignments@)
    }

    /// A fresh analyzer with an empty table and no errors.
    pub fn new() -> (r: SemanticAnalyzer)
        ensures
            r.wf(),
            r.errors@.len() == 0,
            r.symbol_table.maquinas@.len() == 0,
            r.symbol_table.concentradores@.len() == 0,
            r.symbol_table.coaxiales@.len() == 0,
            r.symbol_table.modulos@.len() == 0,
    {
        SemanticAnalyzer {
            symbol_table: SymbolTable::new(),
            errors: Vec::new(),
            coaxial_assignments: Vec::new(),
        }
    }

    /// Analyzes a whole program: registers the declarations, pre-registers
    /// every named block so mutual calls resolve, then checks every block
    /// body and top-level statement. It succeeds exactly when no error was
    /// accumulated; on failure every accumulated error is reported.
    pub fn analyze(&mut self, program: &Program) -> (r: Result<(), Vec<SemanticError>>)
        requires
            old(self).wf(),
        ensures
            final(self).wf(),
            r is Ok <==> final(self).errors@.len() == 0,
            r matches Err(es) ==> es@ == final(self).errors@ && es@.len() > 0,
            old(self).errors@.is_prefix_of(final(self).errors@),
            modulos_registrados_hasta(final(self).symbol_table, program.modulos@,
                program.modulos@.len() as int),
            exists|a1: SemanticAnalyzer, a2: SemanticAnalyzer|
                {
                    &&& old(self).errors@.is_prefix_of(a1.errors@)
                    &&& a1.symbol_table == final(self).symbol_table
                    &&& modulos_registrados_hasta(a1.symbol_table, program.modulos@,
                        program.modulos@.len() as int)
                    &&& #[trigger] analisis_bloques(a1, a2, program.modulos@)
                    &&& analisis_sentencias(a2, *final(self), program.sentencias@)
                },
    {
        self.analyze_definitions(&program.definiciones);

        let mut i: usize = 0;
        while i < program.modulos.len()
            invariant
                self.wf(),
                i <= program.modulos@.len(),
                old(self).errors@.is_prefix_of(self.errors@),
                modulos_registrados_hasta(self.symbol_table, program.modulos@, i as int),
            decreases program.modulos@.len() - i,
        {
            let modulo = &program.modulos[i];
            let loc = modulo.location;
            let ghost tabla_antes = self.symbol_table;
            let ghost modulos_antes = self.symbol_table.modulos@;
            let resultado = self.symbol_table.definir_modulo(modulo.nombre.clone(), loc);
            proof {
                if resultado is Ok {
                    let n = self.symbol_table.modulos@.len();
                    lemma_buscar_modulo_en(self.symbol_table.modulos@, program.modulos@[
                        i as int].nombre@, n - 1);
                } else {
                    let j = choose|j: int|
                        0 <= j < modulos_antes.len() && (#[trigger] modulos_antes[j]).0@
                            == program.modulos@[i as int].nombre@;
                    lemma_buscar_modulo_en(self.symbol_table.modulos@, program.modulos@[
                        i as int].nombre@, j);
                }
                assert forall|q: int| 0 <= q < i + 1 && q < program.modulos@.len() implies
                    spec_buscar_modulo(self.symbol_table.modulos@, (
                #[trigger] program.modulos@[q]).nombre@) by {
                    if q < i {
                        assert(modulos_registrados_hasta(tabla_antes, program.modulos@,
                            i as int));
                        assert(spec_buscar_modulo(tabla_antes.modulos@, program.modulos@[
                            q].nombre@));
                        if resultado is Ok {
                            lemma_buscar_modulo_push(tabla_antes.modulos@,
                                self.symbol_table.modulos@.last(), program.modulos@[q].nombre@);
                            assert(self.symbol_table.modulos@ =~= tabla_antes.modulos@.push(
                                self.symbol_table.modulos@.last()));
                        }
                    }
                }
                assert(modulos_registrados_hasta(self.symbol_table, program.modulos@, i + 1));
            }
            match resultado {
                Ok(()) => {}
                Err(msg) => {
                    self.errors.push(SemanticError::new(msg, loc));
                }
            }
            i = i + 1;
        }

        let ghost a1 = *self;
        proof {
            assert(program.modulos@.subrange(0, 0) =~= Seq::<crate::ast::Modulo>::empty());
        }
        let mut j: usize = 0;
        while j < program.modulos.len()
            invariant
                self.wf(),
                old(self).errors@.is_prefix_of(self.errors@),
                modulos_registrados_hasta(self.symbol_table, program.modulos@,
                    program.modulos@.len() as int),
                j <= program.modulos@.len(),
                old(self).errors@.is_prefix_of(a1.errors@),
                a1.symbol_table == self.symbol_table,
                modulos_registrados_hasta(a1.symbol_table, program.modulos@,
                    program.modulos@.len() as int),
                analisis_bloques(a1, *self, program.modulos@.subrange(0, j as int)),
            decreases program.modulos@.len() - j,
        {
            let ghost previo = *self;
            self.analizar_bloque(&program.modulos[j].sentencias);
            proof {
                lemma_bloques_empuja(a1, previo, *self, program.modulos@.subrange(0, j as int),
                    program.modulos@[j as int]);
                assert(program.modulos@.subrange(0, j as int).push(program.modulos@[j as int])
                    =~= program.modulos@.subrange(0, j + 1 as int));
            }
            j = j + 1;
        }

        let ghost a2 = *self;
        proof {
            assert(program.modulos@.subrange(0, program.modulos@.len() as int)
                =~= program.modulos@);
            assert(analisis_bloques(a1, a2, program.modulos@));
            assert(program.sentencias@.subrange(0, 0) =~= Seq::<Statement>::empty());
        }
        let mut k: usize = 0;
        while k < program.sentencias.len()
            invariant
                self.wf(),
                old(self).errors@.is_prefix_of(self.errors@),
                modulos_registrados_hasta(self.symbol_table, program.modulos@,
                    program.modulos@.len() as int),
                k <= program.sentencias@.len(),
                old(self).errors@.is_prefix_of(a1.errors@),
                a1.symbol_table == self.symbol_table,
                modulos_registrados_hasta(a1.symbol_table, program.modulos@,
                    program.modulos@.len() as int),
                analisis_bloques(a1, a2, program.modulos@),
                analisis_sentencias(a2, *self, program.sentencias@.subrange(0, k as int)),
            decreases program.sentencias@.len() - k,
        {
            proof {
                lemma_altura_elemento(program.sentencias@, k as int);
            }
            let ghost previo = *self;
            self.analyze_statement(&program.sentencias[k]);
            proof {
                lemma_analisis_empuja(a2, previo, *self, program.sentencias@.subrange(0,
                    k as int), program.sentencias@[k as int]);
                assert(program.sentencias@.subrange(0, k as int).push(program.sentencias@[
                    k as int]) =~= program.sentencias@.subrange(0, k + 1 as int));
            }
            k = k + 1;
        }

        proof {
            assert(program.sentencias@.subrange(0, program.sentencias@.len() as int)
                =~= program.sentencias@);
            assert(analisis_sentencias(a2, *self, program.sentencias@));
            assert(exists|b1: SemanticAnalyzer, b2: SemanticAnalyzer|
                {
                    &&& old(self).errors@.is_prefix_of(b1.errors@)
                    &&& b1.symbol_table == self.symbol_table
                    &&& modulos_registrados_hasta(b1.symbol_table, program.modulos@,
                        program.modulos@.len() as int)
                    &&& #[trigger] analisis_bloques(b1, b2, program.modulos@)
                    &&& analisis_sentencias(b2, *self, program.sentencias@)
                });
        }
        if self.errors.len() == 0 {
            Ok(())
        } else {
            Err(clonar_errores(&self.errors))
        }
    }

    /// Registers the declared machines, concentrators and coaxial segments,
    /// accumulating an error for every rejected declaration.
    fn analyze_definitions(&mut self, defs: &Definitions)
        requires
            old(self).wf(),
        ensures
            final(self).wf(),
            old(self).errors@.is_prefix_of(final(self).errors@),
    {
        let mut i: usize = 0;
        while i < defs.maquinas.len()
            invariant
                self.wf(),
                old(self).errors@.is_prefix_of(self.errors@),
            decreases defs.maquinas@.len() - i,
        {
            let decl = &defs.maquinas[i];
            let loc = decl.location;
            let resultado = self.symbol_table.definir_maquina(decl.nombre.clone(), loc);
            match resultado {
                Ok(()) => {}
                Err(msg) => {
                    self.errors.push(SemanticError::new(msg, loc));
                }
            }
            i = i + 1;
        }
        let mut j: usize = 0;
        while j < defs.concentradores.len()
            invariant
                self.wf(),
                old(self).errors@.is_prefix_of(self.errors@),
            decreases defs.concentradores@.len() - j,
        {
            let decl = &defs.concentradores[j];
            let loc = decl.location;
            let resultado = self.symbol_table.definir_concentrador(decl.nombre.clone(),
                decl.puertos, decl.tiene_coaxial, loc);
            match resultado {
                Ok(()) => {}
                Err(msg) => {
                    self.errors.push(SemanticError::new(msg, loc));
                }
            }
            j = j + 1;
        }
        let mut k: usize = 0;
        while k < defs.coaxiales.len()
            invariant
                self.wf(),
                old(self).errors@.is_prefix_of(self.errors@),
            decreases defs.coaxiales@.len() - k,
        {
            let decl = &defs.coaxiales[k];
            let loc = decl.location;
            let ghost coax_antes = self.symbol_table.coaxiales@;
            let resultado = self.symbol_table.definir_coaxial(decl.nombre.clone(), decl.longitud,
                loc);
            proof {
                if resultado is Ok {
                    lemma_asignaciones_estables(coax_antes, self.symbol_table.coaxiales@,
                        self.coaxial_assignments@);
                }
            }
            match resultado {
                Ok(()) => {}
                Err(msg) => {
                    self.errors.push(SemanticError::new(msg, loc));
                }
            }
            k = k + 1;
        }
    }

    /// Checks every statement of a block.
    fn analizar_bloque(&mut self, stmts: &Vec<Statement>)
        requires
            old(self).wf(),
        ensures
            final(self).wf(),
            final(self).symbol_table == old(self).symbol_table,
            old(self).errors@.is_prefix_of(final(self).errors@),
            analisis_sentencias(*old(self), *final(self), stmts@),
        decreases altura_stmts(stmts@), 1nat,
    {
        proof {
            assert(stmts@.subrange(0, 0) =~= Seq::<Statement>::empty());
        }
        let mut i: usize = 0;
        while i < stmts.len()
            invariant
                self.wf(),
                self.symbol_table == old(self).symbol_table,
                old(self).errors@.is_prefix_of(self.errors@),
                i <= stmts@.len(),
                analisis_sentencias(*old(self), *self, stmts@.subrange(0, i as int)),
            decreases stmts@.len() - i,
        {
            proof {
                lemma_altura_elemento(stmts@, i as int);
            }
            let ghost previo = *self;
            self.analyze_statement(&stmts[i]);
            proof {
                lemma_analisis_empuja(*old(self), previo, *self, stmts@.subrange(0, i as int),
                    stmts@[i as int]);
                assert(stmts@.subrange(0, i as int).push(stmts@[i as int]) =~= stmts@.subrange(
                    0, i + 1 as int));
            }
            i = i + 1;
        }
        proof {
            assert(stmts@.subrange(0, stmts@.len() as int) =~= stmts@);
        }
    }

    /// Type-checks one statement and enforces the domain rules it touches.
    fn analyze_statement(&mut self, stmt: &Statement)
        requires
            old(self).wf(),
        ensures
            final(self).wf(),
            final(self).symbol_table == old(self).symbol_table,
            old(self).errors@.is_prefix_of(final(self).errors@),
            (*stmt) matches Statement::LlamadaModulo { nombre, .. } ==> ({
                let hay = exists|j: int|
                    0 <= j < old(self).symbol_table.modulos@.len() && (
                    #[trigger] old(self).symbol_table.modulos@[j]).0@ == nombre@;
                &&& (hay ==> *final(self) == *old(self))
                &&& (!hay ==> final(self).errors@.len() == old(self).errors@.len() + 1 && final(
                    self).coaxial_assignments == old(self).coaxial_assignments)
            }),
            (*stmt) matches Statement::Coloca { objeto, x, y, .. } ==> final(self).errors@.len()
                == old(self).errors@.len() + (if spec_sym_maquina(old(
                self).symbol_table.maquinas@, objeto@) is Some || spec_sym_concentrador(old(
                self).symbol_table.concentradores@, objeto@) is Some {
                0nat
            } else {
                1nat
            }) + spec_errores_check(old(self).symbol_table, x, Type::Int) + spec_errores_check(
                old(self).symbol_table, y, Type::Int),
            (*stmt) matches Statement::ColocaCoaxial { coaxial, x, y, .. } ==> final(
                self).errors@.len() == old(self).errors@.len() + (if spec_sym_coaxial(old(
                self).symbol_table.coaxiales@, coaxial@) is Some {
                0nat
            } else {
                1nat
            }) + spec_errores_check(old(self).symbol_table, x, Type::Int) + spec_errores_check(
                old(self).symbol_table, y, Type::Int),
            (*stmt) matches Statement::ColocaCoaxialConcentrador { coaxial, concentrador, .. }
                ==> ({
                let b = spec_sym_concentrador(old(self).symbol_table.concentradores@,
                    concentrador@);
                final(self).errors@.len() == old(self).errors@.len() + (if spec_sym_coaxial(old(
                    self).symbol_table.coaxiales@, coaxial@) is Some {
                    0nat
                } else {
                    1nat
                }) + (if b is Some {
                    0nat
                } else {
                    1nat
                }) + (if b is Some && !old(self).symbol_table.concentradores@[
                    b->0].tiene_coaxial {
                    1nat
                } else {
                    0nat
                })
            }),
            (*stmt) matches Statement::UneMaquinaPuerto { maquina, concentrador, puerto, .. }
                ==> final(self).errors@.len() == old(self).errors@.len() + (
            if identificador_definido(old(self).symbol_table, maquina@) {
                0nat
            } else {
                1nat
            }) + (if spec_sym_concentrador(old(self).symbol_table.concentradores@,
                concentrador@) is Some {
                0nat
            } else {
                1nat
            }) + spec_errores_check(old(self).symbol_table, puerto, Type::Int),
            (*stmt) matches Statement::AsignaPuerto { maquina, concentrador, .. } ==> final(
                self).errors@.len() == old(self).errors@.len() + (if identificador_definido(old(
                self).symbol_table, maquina@) {
                0nat
            } else {
                1nat
            }) + (if spec_sym_concentrador(old(self).symbol_table.concentradores@,
                concentrador@) is Some {
                0nat
            } else {
                1nat
            }),
            (*stmt) matches Statement::MaquinaCoaxial { maquina, coaxial, posicion, .. } ==> ({
                let t = old(self).symbol_table;
                let b = spec_sym_coaxial(t.coaxiales@, coaxial@);
                final(self).errors@.len() == old(self).errors@.len() + (if spec_sym_maquina(
                    t.maquinas@, maquina@) is Some {
                    0nat
                } else {
                    1nat
                }) + (if b is Some {
                    0nat
                } else {
                    1nat
                }) + spec_errores_check(t, posicion, Type::Int) + (if spec_tipo(t, posicion)
                    == Type::Int && posicion is Numero && b is Some && ({
                    let v = posicion->Numero_0;
                    v < 0 || v > t.coaxiales@[b->0].longitud || hay_conflicto(spec_lista_asig(
                        old(self).coaxial_assignments@, coaxial@), v as int)
                }) {
                    1nat
                } else {
                    0nat
                })
            }),
            (*stmt) matches Statement::AsignaMaquinaCoaxial { maquina, coaxial, .. } ==> final(
                self).errors@.len() == old(self).errors@.len() + (if spec_sym_maquina(old(
                self).symbol_table.maquinas@, maquina@) is Some {
                0nat
            } else {
                1nat
            }) + (if spec_sym_coaxial(old(self).symbol_table.coaxiales@, coaxial@) is Some {
                0nat
            } else {
                1nat
            }),
            (*stmt) matches Statement::Escribe { contenido, .. } ==> final(self).errors@.len()
                == old(self).errors@.len() + spec_errores_expr(old(self).symbol_table,
                contenido),
            relacion_analisis(*old(self), *final(self), *stmt),
        decreases altura_stmt(*stmt), 0nat,
    {
        match stmt {
            Statement::Coloca { objeto, x, y, location } => {
                self.check_object_exists(objeto.as_str(), location);
                let exp_int = Type::Int;
                let _tx = self.check_expression(x, &exp_int, location);
                let _ty = self.check_expression(y, &exp_int, location);
            }
            Statement::ColocaCoaxial { coaxial, x, y, direccion: _, location } => {
                self.check_coaxial_exists(coaxial.as_str(), location);
                let exp_int = Type::Int;
                let _tx = self.check_expression(x, &exp_int, location);
                let _ty = self.check_expression(y, &exp_int, location);
            }
            Statement::ColocaCoaxialConcentrador { coaxial, concentrador, location } => {
                self.check_coaxial_exists(coaxial.as_str(), location);
                self.check_concentrador_exists(concentrador.as_str(), location);
                let sin_salida: bool = match self.symbol_table.obtener_concentrador(
                    concentrador.as_str()) {
                    Some(conc) => !conc.tiene_coaxial,
                    None => false,
                };
                if sin_salida {
                    let msg = String::from_str("El concentrador '").concat(
                        concentrador.as_str()).concat("' no tiene salida para coaxial");
                    self.errors.push(SemanticError::new(msg, *location));
                }
            }
            Statement::UneMaquinaPuerto { maquina, concentrador, puerto, location } => {
                self.check_maquina_or_concentrador_exists(maquina.as_str(), location);
                self.check_concentrador_exists(concentrador.as_str(), location);
                let exp_int = Type::Int;
                let _tp = self.check_expression(puerto, &exp_int, location);
            }
            Statement::AsignaPuerto { maquina, concentrador, location } => {
                self.check_maquina_or_concentrador_exists(maquina.as_str(), location);
                self.check_concentrador_exists(concentrador.as_str(), location);
            }
            Statement::MaquinaCoaxial { maquina, coaxial, posicion, location } => {
                self.check_maquina_exists(maquina.as_str(), location);
                self.check_coaxial_exists(coaxial.as_str(), location);
                let exp_int = Type::Int;
                let tipo_pos = self.check_expression(posicion, &exp_int, location);
                if tipo_pos == Type::Int {
                    match posicion {
                        Expr::Numero(pos_val) => {
                            self.validate_maquina_coaxial_placement(maquina.as_str(),
                                coaxial.as_str(), *pos_val, location);
                        }
                        _ => {}
                    }
                }
            }
            Statement::AsignaMaquinaCoaxial { maquina, coaxial, location } => {
                self.check_maquina_exists(maquina.as_str(), location);
                self.check_coaxial_exists(coaxial.as_str(), location);
            }
            Statement::Escribe { contenido, location } => {
                let exp = Type::Unknown;
                let _t = self.check_expression(contenido, &exp, location);
            }
            Statement::Si { condicion, entonces, sino, location } => {
                proof {
                    lemma_altura_si(*stmt);
                }
                let exp_bool = Type::Bool;
                let _tc = self.check_expression(condicion, &exp_bool, location);
                self.analizar_bloque(entonces);
                match sino {
                    Some(sino_stmts) => {
                        self.analizar_bloque(sino_stmts);
                    }
                    None => {}
                }
            }
            Statement::LlamadaModulo { nombre, location } => {
                if !self.symbol_table.existe_modulo(nombre.as_str()) {
                    let msg = String::from_str("Módulo '").concat(nombre.as_str()).concat(
                        "' no está definido");
                    self.errors.push(SemanticError::new(msg, *location));
                }
            }
        }
    }

    /// Infers an expression's type and reports an incompatibility with the
    /// expected one.
    fn check_expression(&mut self, expr: &Expr, expected: &Type, location: &Location) -> (r: Type)
        requires
            old(self).wf(),
        ensures
            final(self).wf(),
            final(self).symbol_table == old(self).symbol_table,
            final(self).coaxial_assignments == old(self).coaxial_assignments,
            old(self).errors@.is_prefix_of(final(self).errors@),
            r == spec_tipo(old(self).symbol_table, *expr),
            final(self).errors@.len() == old(self).errors@.len() + spec_errores_check(old(
                self).symbol_table, *expr, *expected),
        decreases *expr, 1int,
    {
        proof {
            lemma_errores_check_def(self.symbol_table, *expr, *expected);
        }
        let actual = self.infer_expression_type(expr, location);
        if !(*expected == Type::Unknown) && !(actual == Type::Unknown) {
            if !types_are_compatible(&actual, expected) {
                let msg = String::from_str("Incompatibilidad de tipos: se esperaba '").concat(
                    expected.to_string().as_str()).concat("' pero se encontró '").concat(
                    actual.to_string().as_str()).concat("'");
                self.errors.push(SemanticError::new(msg, *location));
            }
        }
        actual
    }

    /// The type of an expression: literals by their kind, identifiers by the
    /// network object they name, accesses by the fixed field vocabulary of
    /// concentrators and coaxial segments, operators by their result.
    fn infer_expression_type(&mut self, expr: &Expr, location: &Location) -> (r: Type)
        requires
            old(self).wf(),
        ensures
            final(self).wf(),
            final(self).symbol_table == old(self).symbol_table,
            final(self).coaxial_assignments == old(self).coaxial_assignments,
            old(self).errors@.is_prefix_of(final(self).errors@),
            r == spec_tipo(old(self).symbol_table, *expr),
            final(self).errors@.len() == old(self).errors@.len() + spec_errores_expr(old(
                self).symbol_table, *expr),
            expr is Numero || expr is Cadena ==> *final(self) == *old(self),
            (*expr) matches Expr::Identificador(nombre) ==> ({
                &&& (identificador_definido(old(self).symbol_table, nombre@) ==> *final(self)
                    == *old(self))
                &&& (!identificador_definido(old(self).symbol_table, nombre@) ==> final(
                    self).errors@.len() == old(self).errors@.len() + 1)
            }),
            (*expr) matches Expr::AccesoCampo { objeto, campo } ==> ({
                &&& (acceso_campo_valido(old(self).symbol_table, objeto@, campo@) ==> *final(self)
                    == *old(self))
                &&& (!acceso_campo_valido(old(self).symbol_table, objeto@, campo@) ==> final(
                    self).errors@.len() == old(self).errors@.len() + 1)
            }),
        decreases *expr, 0int,
    {
        proof {
            lemma_errores_def(self.symbol_table, *expr);
        }
        match expr {
            Expr::Numero(_) => Type::Int,
            Expr::Cadena(_) => Type::Cadena,
            Expr::Identificador(nombre) => {
                if self.symbol_table.obtener_maquina(nombre.as_str()).is_some() {
                    Type::Maquina
                } else if self.symbol_table.obtener_concentrador(nombre.as_str()).is_some() {
                    Type::Concentrador
                } else if self.symbol_table.obtener_coaxial(nombre.as_str()).is_some() {
                    Type::Coaxial
                } else {
                    let msg = String::from_str("Identificador '").concat(nombre.as_str()).concat(
                        "' no está definido");
                    self.errors.push(SemanticError::new(msg, *location));
                    Type::Unknown
                }
            }
            Expr::AccesoCampo { objeto, campo } => {
                if self.symbol_table.obtener_concentrador(objeto.as_str()).is_some() {
                    if crate::texto::str_eq(campo, "puertos") || crate::texto::str_eq(campo,
                        "disponibles") || crate::texto::str_eq(campo, "presente")
                        || crate::texto::str_eq(campo, "coaxial") {
                        Type::Int
                    } else {
                        let msg = String::from_str("Campo '").concat(campo.as_str()).concat(
                            "' no existe en concentrador '").concat(objeto.as_str()).concat(
                            "'. Campos válidos: puertos, disponibles, presente, coaxial");
                        self.errors.push(SemanticError::new(msg, *location));
                        Type::Unknown
                    }
                } else if self.symbol_table.obtener_coaxial(objeto.as_str()).is_some() {
                    if crate::texto::str_eq(campo, "longitud") || crate::texto::str_eq(campo,
                        "completo") || crate::texto::str_eq(campo, "num") || crate::texto::str_eq(
                        campo, "presente") {
                        Type::Int
                    } else {
                        let msg = String::from_str("Campo '").concat(campo.as_str()).concat(
                            "' no existe en coaxial '").concat(objeto.as_str()).concat(
                            "'. Campos válidos: longitud, completo, num, presente");
                        self.errors.push(SemanticError::new(msg, *location));
                        Type::Unknown
                    }
                } else {
                    let msg = String::from_str("Objeto '").concat(objeto.as_str()).concat(
                        "' no está definido o no soporta acceso a campos");
                    self.errors.push(SemanticError::new(msg, *location));
                    Type::Unknown
                }
            }
            Expr::AccesoArreglo { objeto, indice } => {
                let exp_int = Type::Int;
                let _ti = self.check_expression(indice, &exp_int, location);
                let partes = crate::texto::dividir(&crate::texto::chars_de(objeto.as_str()), '.');
                if partes.len() == 2 && crate::texto::es_cadena(&partes[1], "p") {
                    let base = crate::texto::cadena_de(&partes[0]);
                    if self.symbol_table.obtener_concentrador(base.as_str()).is_some() {
                        Type::Bool
                    } else {
                        let msg = String::from_str("Concentrador '").concat(base.as_str()).concat(
                            "' no está definido");
                        self.errors.push(SemanticError::new(msg, *location));
                        Type::Unknown
                    }
                } else if partes.len() >= 2 {
                    let msg = String::from_str("Acceso a arreglo inválido: '").concat(
                        objeto.as_str()).concat("'");
                    self.errors.push(SemanticError::new(msg, *location));
                    Type::Unknown
                } else {
                    Type::Unknown
                }
            }
            Expr::Relacional { izq, op: _, der } => {
                let tipo_izq = self.infer_expression_type(izq, location);
                let tipo_der = self.infer_expression_type(der, location);
                if !(tipo_izq == Type::Unknown) && !(tipo_der == Type::Unknown) {
                    if !types_are_compatible(&tipo_izq, &tipo_der) {
                        let msg = String::from_str(
                            "No se pueden comparar tipos incompatibles: '").concat(
                            tipo_izq.to_string().as_str()).concat("' y '").concat(
                            tipo_der.to_string().as_str()).concat("'");
                        self.errors.push(SemanticError::new(msg, *location));
                    }
                }
                Type::Bool
            }
            Expr::Logico { izq, op: _, der } => {
                let exp_bool = Type::Bool;
                let _ti = self.check_expression(izq, &exp_bool, location);
                let _td = self.check_expression(der, &exp_bool, location);
                Type::Bool
            }
            Expr::Not(inner) => {
                let exp_bool = Type::Bool;
                let _t = self.check_expression(inner, &exp_bool, location);
                Type::Bool
            }
        }
    }

    /// Reports a missing machine.
    fn check_maquina_exists(&mut self, nombre: &str, location: &Location)
        requires
            old(self).wf(),
        ensures
            final(self).wf(),
            final(self).symbol_table == old(self).symbol_table,
            final(self).coaxial_assignments == old(self).coaxial_assignments,
            spec_sym_maquina(old(self).symbol_table.maquinas@, nombre@) is Some ==> *final(self) == *old(self),
            !(spec_sym_maquina(old(self).symbol_table.maquinas@, nombre@) is Some) ==> final(self).errors@.len() == old(self).errors@.len() + 1,
            old(self).errors@.is_prefix_of(final(self).errors@),
    {
        if self.symbol_table.obtener_maquina(nombre).is_none() {
            let msg = String::from_str("Máquina '").concat(nombre).concat("' no está definida");
            self.errors.push(SemanticError::new(msg, *location));
        }
    }

    /// Reports a missing concentrator.
    fn check_concentrador_exists(&mut self, nombre: &str, location: &Location)
        requires
            old(self).wf(),
        ensures
            final(self).wf(),
            final(self).symbol_table == old(self).symbol_table,
            final(self).coaxial_assignments == old(self).coaxial_assignments,
            spec_sym_concentrador(old(self).symbol_table.concentradores@, nombre@) is Some ==> *final(self) == *old(self),
            !(spec_sym_concentrador(old(self).symbol_table.concentradores@, nombre@) is Some) ==> final(self).errors@.len() == old(self).errors@.len() + 1,
            old(self).errors@.is_prefix_of(final(self).errors@),
    {
        if self.symbol_table.obtener_concentrador(nombre).is_none() {
            let msg = String::from_str("Concentrador '").concat(nombre).concat(
                "' no está definido");
            self.errors.push(SemanticError::new(msg, *location));
        }
    }

    /// Reports a missing coaxial segment.
    fn check_coaxial_exists(&mut self, nombre: &str, location: &Location)
        requires
            old(self).wf(),
        ensures
            final(self).wf(),
            final(self).symbol_table == old(self).symbol_table,
            final(self).coaxial_assignments == old(self).coaxial_assignments,
            spec_sym_coaxial(old(self).symbol_table.coaxiales@, nombre@) is Some ==> *final(self) == *old(self),
            !(spec_sym_coaxial(old(self).symbol_table.coaxiales@, nombre@) is Some) ==> final(self).errors@.len() == old(self).errors@.len() + 1,
            old(self).errors@.is_prefix_of(final(self).errors@),
    {
        if self.symbol_table.obtener_coaxial(nombre).is_none() {
            let msg = String::from_str("Coaxial '").concat(nombre).concat("' no está definido");
            self.errors.push(SemanticError::new(msg, *location));
        }
    }

    /// Reports a name that is neither a machine nor a concentrator.
    fn check_object_exists(&mut self, nombre: &str, location: &Location)
        requires
            old(self).wf(),
        ensures
            final(self).wf(),
            final(self).symbol_table == old(self).symbol_table,
            final(self).coaxial_assignments == old(self).coaxial_assignments,
            (spec_sym_maquina(old(self).symbol_table.maquinas@, nombre@) is Some
                || spec_sym_concentrador(old(self).symbol_table.concentradores@, nombre@)
                is Some) ==> *final(self) == *old(self),
            !(spec_sym_maquina(old(self).symbol_table.maquinas@, nombre@) is Some
                || spec_sym_concentrador(old(self).symbol_table.concentradores@, nombre@)
                is Some) ==> final(self).errors@.len() == old(self).errors@.len() + 1,
            old(self).errors@.is_prefix_of(final(self).errors@),
    {
        if self.symbol_table.obtener_maquina(nombre).is_none() && self.symbol_table
            .obtener_concentrador(nombre).is_none() {
            let msg = String::from_str("Objeto '").concat(nombre).concat(
                "' no está definido (no es máquina ni concentrador)");
            self.errors.push(SemanticError::new(msg, *location));
        }
    }

    /// Reports a name that is no network object at all. The first argument
    /// of a port wiring may be a machine, a concentrator (hub cascades) or a
    /// coaxial segment.
    fn check_maquina_or_concentrador_exists(&mut self, nombre: &str, location: &Location)
        requires
            old(self).wf(),
        ensures
            final(self).wf(),
            final(self).symbol_table == old(self).symbol_table,
            final(self).coaxial_assignments == old(self).coaxial_assignments,
            (spec_sym_maquina(old(self).symbol_table.maquinas@, nombre@) is Some
                || spec_sym_concentrador(old(self).symbol_table.concentradores@, nombre@) is Some
                || spec_sym_coaxial(old(self).symbol_table.coaxiales@, nombre@) is Some) ==> *final(self) == *old(self),
            !(spec_sym_maquina(old(self).symbol_table.maquinas@, nombre@) is Some
                || spec_sym_concentrador(old(self).symbol_table.concentradores@, nombre@) is Some
                || spec_sym_coaxial(old(self).symbol_table.coaxiales@, nombre@) is Some) ==> final(self).errors@.len() == old(self).errors@.len() + 1,
            old(self).errors@.is_prefix_of(final(self).errors@),
    {
        if self.symbol_table.obtener_maquina(nombre).is_none() && self.symbol_table
            .obtener_concentrador(nombre).is_none() && self.symbol_table.obtener_coaxial(
            nombre).is_none() {
            let msg = String::from_str("'").concat(nombre).concat(
                "' no está definido (debe ser una máquina, concentrador o coaxial)");
            self.errors.push(SemanticError::new(msg, *location));
        }
    }

    /// Pre-validates a literal coaxial placement: the position must lie on
    /// the cable and keep three meters from every placement already recorded
    /// for that segment; an admitted placement is recorded in the shadow
    /// table, which therefore always respects the spacing discipline. An
    /// undeclared segment changes nothing; a rejected position appends
    /// exactly one error and records nothing.
    fn validate_maquina_coaxial_placement(
        &mut self,
        maquina: &str,
        coaxial: &str,
        posicion: i32,
        location: &Location,
    )
        requires
            old(self).wf(),
        ensures
            final(self).wf(),
            final(self).symbol_table == old(self).symbol_table,
            old(self).errors@.is_prefix_of(final(self).errors@),
            spec_sym_coaxial(old(self).symbol_table.coaxiales@, coaxial@) is None ==> *final(
                self) == *old(self),
            spec_sym_coaxial(old(self).symbol_table.coaxiales@, coaxial@) matches Some(i) ==> ({
                let longitud = old(self).symbol_table.coaxiales@[i].longitud as int;
                let lista = spec_lista_asig(old(self).coaxial_assignments@, coaxial@);
                if posicion < 0 || posicion > longitud || hay_conflicto(lista, posicion as int) {
                    &&& final(self).errors@.len() == old(self).errors@.len() + 1
                    &&& final(self).coaxial_assignments == old(self).coaxial_assignments
                } else {
                    &&& final(self).errors == old(self).errors
                    &&& ({
                        let ln = spec_lista_asig(final(self).coaxial_assignments@, coaxial@);
                        &&& ln.len() == lista.len() + 1
                        &&& (forall|j: int| 0 <= j < lista.len() ==> ln[j] == lista[j])
                        &&& ln[lista.len() as int].0@ == maquina@
                        &&& ln[lista.len() as int].1 == posicion
                    })
                    &&& forall|n: Seq<char>|
                        n != coaxial@ ==> #[trigger] spec_lista_asig(final(
                            self).coaxial_assignments@, n) == spec_lista_asig(old(
                            self).coaxial_assignments@, n)
                }
            }),
    {
        let longitud_opt: Option<i32> = match self.symbol_table.obtener_coaxial(coaxial) {
            Some(coax) => Some(coax.longitud),
            None => None,
        };
        let longitud = match longitud_opt {
            Some(l) => l,
            None => {
                return ;
            }
        };
        if posicion < 0 || posicion > longitud {
            let msg = String::from_str("Posición inválida: ").concat(i32_a_cadena(
                posicion).as_str()).concat("m. La posición debe estar entre 0 y ").concat(
                i32_a_cadena(longitud).as_str()).concat(" (longitud del cable '").concat(
                coaxial).concat("')");
            self.errors.push(SemanticError::new(msg, *location));
            return ;
        }
        let clave = String::from_str(coaxial);
        let mut entrada: Option<usize> = None;
        let mut k: usize = 0;
        while k < self.coaxial_assignments.len()
            invariant
                old(self).wf(),
                *self == *old(self),
                k <= self.coaxial_assignments@.len(),
                clave@ == coaxial@,
                ({
                    let b = spec_sym_coaxial(self.symbol_table.coaxiales@, coaxial@);
                    &&& b is Some
                    &&& 0 <= b->0 < self.symbol_table.coaxiales@.len()
                    &&& self.symbol_table.coaxiales@[b->0].longitud == longitud
                    &&& self.symbol_table.coaxiales@[b->0].nombre@ == coaxial@
                }),

                match entrada {
                    Some(e) => e < k && self.coaxial_assignments@[e as int].0@ == coaxial@
                        && forall|j: int| 0 <= j < e ==> (
                        #[trigger] self.coaxial_assignments@[j]).0@ != coaxial@,
                    None => forall|j: int| 0 <= j < k ==> (
                        #[trigger] self.coaxial_assignments@[j]).0@ != coaxial@,
                },
            decreases self.coaxial_assignments@.len() - k,
        {
            if entrada.is_none() && self.coaxial_assignments[k].0.eq(&clave) {
                entrada = Some(k);
            }
            k = k + 1;
        }

        proof {
            assert(self.coaxial_assignments@ == old(self).coaxial_assignments@);
            match entrada {
                Some(e) => {
                    lemma_asig_indice(old(self).coaxial_assignments@, coaxial@, e as int);
                    assert(spec_lista_asig(old(self).coaxial_assignments@, coaxial@) == old(
                        self).coaxial_assignments@[e as int].1@);
                },
                None => {
                    lemma_asig_indice_none(old(self).coaxial_assignments@, coaxial@);
                    assert(spec_lista_asig(old(self).coaxial_assignments@, coaxial@) == Seq::<(
                    String, i32)>::empty());
                },
            }
        }
        match entrada {
            Some(e) => {
                let mut m: usize = 0;
                let cuantos = self.coaxial_assignments[e].1.len();
                while m < cuantos
                    invariant
                        old(self).wf(),
                        *self == *old(self),
                        e < self.coaxial_assignments@.len(),
                        ({
                            let b = spec_sym_coaxial(self.symbol_table.coaxiales@, coaxial@);
                            &&& b is Some
                            &&& 0 <= b->0 < self.symbol_table.coaxiales@.len()
                            &&& self.symbol_table.coaxiales@[b->0].longitud == longitud
                            &&& self.symbol_table.coaxiales@[b->0].nombre@ == coaxial@
                        }),

                        self.coaxial_assignments@[e as int].0@ == coaxial@,
                        spec_asig_indice(old(self).coaxial_assignments@, coaxial@) == Some(
                            e as int),
                        cuantos == self.coaxial_assignments@[e as int].1@.len(),
                        m <= cuantos,
                        forall|j: int| 0 <= j < m ==> ((
                            #[trigger] self.coaxial_assignments@[e as int].1@[j]).1 - posicion >= 3
                            || posicion - self.coaxial_assignments@[e as int].1@[j].1 >= 3),
                    decreases cuantos - m,
                {
                    let p: i64 = self.coaxial_assignments[e].1[m].1 as i64;
                    let q: i64 = posicion as i64;
                    let d: i64 = if p >= q {
                        p - q
                    } else {
                        q - p
                    };
                    if d < 3 {
                        proof {
                            let lista = spec_lista_asig(old(self).coaxial_assignments@, coaxial@);
                            assert(lista == old(self).coaxial_assignments@[e as int].1@);
                            assert(lista[m as int].1 as i64 == p);
                            assert(-3 < lista[m as int].1 - posicion < 3);
                            assert(hay_conflicto(lista, posicion as int));
                        }
                        let distancia: i32 = d as i32;
                        let msg = String::from_str(
                            "Violación de regla Ethernet: la máquina '").concat(maquina).concat(
                            "' está demasiado cerca (").concat(i32_a_cadena(
                            distancia).as_str()).concat("m) de la máquina '").concat(
                            self.coaxial_assignments[e].1[m].0.as_str()).concat(
                            "' en posición ").concat(i32_a_cadena(
                            self.coaxial_assignments[e].1[m].1).as_str()).concat(
                            "m. La separación mínima es 3m");
                        self.errors.push(SemanticError::new(msg, *location));
                        return ;
                    }
                    m = m + 1;
                }
                proof {
                    let lista = spec_lista_asig(old(self).coaxial_assignments@, coaxial@);
                    assert(!hay_conflicto(lista, posicion as int)) by {
                        if hay_conflicto(lista, posicion as int) {
                            let j = choose|j: int|
                                0 <= j < lista.len() && -3 < (#[trigger] lista[j]).1 - posicion
                                    < 3;
                            assert(lista[j].1 - posicion >= 3 || posicion - lista[j].1 >= 3);
                        }
                    }
                }
                // Record the admitted placement on the existing entry.
                let vieja_clave = self.coaxial_assignments[e].0.clone();
                let mut nueva = clonar_lista_asignaciones(&self.coaxial_assignments[e].1);
                nueva.push((String::from_str(maquina), posicion));
                let ghost viejas = self.coaxial_assignments@;
                self.coaxial_assignments[e] = (vieja_clave, nueva);
                proof {
                    let nuevas = self.coaxial_assignments@;
                    assert(nuevas == viejas.update(e as int, nuevas[e as int]));
                    let coax = self.symbol_table.coaxiales@;
                    assert forall|a: int, b: int|
                        0 <= a < b < nuevas.len() implies (#[trigger] nuevas[a]).0@ != (
                        #[trigger] nuevas[b]).0@ by {
                        assert(viejas[a].0@ != viejas[b].0@);
                        assert(nuevas[a].0@ == viejas[a].0@ && nuevas[b].0@ == viejas[b].0@);
                    }
                    assert(claves_asig_unicas(nuevas));
                    assert forall|kk: int| 0 <= kk < nuevas.len() implies entrada_valida(coax,
                        #[trigger] nuevas[kk]) by {
                        if kk != e as int {
                            assert(nuevas[kk] == viejas[kk]);
                            assert(entrada_valida(coax, viejas[kk]));
                        } else {
                            assert(entrada_valida(coax, viejas[e as int]));
                            let i = choose|i: int|
                                0 <= i < coax.len() && (#[trigger] coax[i]).nombre@ == viejas[
                                e as int].0@ && lista_espaciada(posiciones_de(viejas[e as int].1@),
                                coax[i].longitud as int);
                            let iw = spec_sym_coaxial(coax, coaxial@)->0;
                            assert(0 <= iw < coax.len() && coax[iw].nombre@ == coaxial@
                                && coax[iw].longitud == longitud);
                            assert(coax[i].nombre@ == coax[iw].nombre@);
                            assert(i == iw);
                            assert(posiciones_de(nuevas[e as int].1@) =~= posiciones_de(viejas[
                                e as int].1@).push(posicion));
                            lemma_espaciado_push_i32(posiciones_de(viejas[e as int].1@), posicion,
                                longitud as int);
                            assert(0 <= i < coax.len() && coax[i].nombre@ == nuevas[e as int].0@
                                && lista_espaciada(posiciones_de(nuevas[e as int].1@),
                                coax[i].longitud as int));
                        }
                    }
                    assert(asignaciones_validas(coax, nuevas));

                    // The entry keeps its index, so the recorded list is the
                    // old one extended by the admitted placement, and every
                    // other name's list is untouched.
                    assert(viejas == old(self).coaxial_assignments@);
                    lemma_asig_caracteriza(viejas, coaxial@);
                    assert(spec_asig_indice(viejas, coaxial@) == Some(e as int));
                    assert(nuevas[e as int].0@ == coaxial@);
                    assert(forall|j: int| 0 <= j < nuevas.len() ==> (#[trigger] nuevas[j]).0
                        == viejas[j].0);
                    lemma_asig_indice(nuevas, coaxial@, e as int);
                    assert(spec_lista_asig(nuevas, coaxial@) == nuevas[e as int].1@);
                    assert forall|n: Seq<char>|
                        n != coaxial@ implies #[trigger] spec_lista_asig(nuevas, n)
                        == spec_lista_asig(viejas, n) by {
                        lemma_asig_caracteriza(viejas, n);
                        lemma_asig_ninguno(viejas, n);
                        if spec_asig_indice(viejas, n) is Some {
                            let i = spec_asig_indice(viejas, n)->0;
                            assert(viejas[i].0@ == n);
                            assert(i != e as int);
                            assert(nuevas[i].0@ == n);
                            assert(forall|j: int| 0 <= j < i ==> (#[trigger] nuevas[j]).0@ != n);
                            lemma_asig_indice(nuevas, n, i);
                            assert(nuevas[i].1@ == viejas[i].1@);
                        } else {
                            assert(forall|j: int| 0 <= j < nuevas.len() ==> (
                                #[trigger] nuevas[j]).0@ != n);
                            lemma_asig_indice_none(nuevas, n);
                        }
                    }
                }
            }
            None => {
                let mut lista: Vec<(String, i32)> = Vec::new();
                lista.push((String::from_str(maquina), posicion));
                let ghost viejas = self.coaxial_assignments@;
                self.coaxial_assignments.push((clave, lista));
                proof {
                    let nuevas = self.coaxial_assignments@;
                    let coax = self.symbol_table.coaxiales@;
                    assert forall|a: int, b: int|
                        0 <= a < b < nuevas.len() implies (#[trigger] nuevas[a]).0@ != (
                        #[trigger] nuevas[b]).0@ by {
                        if b < viejas.len() {
                            assert(nuevas[a] == viejas[a] && nuevas[b] == viejas[b]);
                        } else {
                            assert(nuevas[a] == viejas[a]);
                            assert(nuevas[b].0@ == coaxial@);
                        }
                    }
                    assert(claves_asig_unicas(nuevas));
                    assert forall|kk: int| 0 <= kk < nuevas.len() implies entrada_valida(coax,
                        #[trigger] nuevas[kk]) by {
                        if kk < viejas.len() {
                            assert(nuevas[kk] == viejas[kk]);
                            assert(entrada_valida(coax, viejas[kk]));
                        } else {
                            let iw = spec_sym_coaxial(coax, coaxial@)->0;
                            assert(0 <= iw < coax.len() && coax[iw].nombre@ == coaxial@
                                && coax[iw].longitud == longitud);
                            assert(posiciones_de(nuevas[kk].1@).len() == 1);
                            assert(posiciones_de(nuevas[kk].1@)[0] == posicion);
                            assert(0 <= iw < coax.len() && coax[iw].nombre@ == nuevas[kk].0@
                                && lista_espaciada(posiciones_de(nuevas[kk].1@),
                                coax[iw].longitud as int));
                        }
                    }
                    assert(asignaciones_validas(coax, nuevas));

                    // The pushed entry is the first for this name, so its
                    // list is the one admitted placement, and every other
                    // name's list is untouched.
                    assert(viejas == old(self).coaxial_assignments@);
                    assert(forall|j: int| 0 <= j < viejas.len() ==> (#[trigger] viejas[j]).0@
                        != coaxial@);
                    assert(nuevas[viejas.len() as int].0@ == coaxial@);
                    lemma_asig_indice(nuevas, coaxial@, viejas.len() as int);
                    assert(spec_lista_asig(nuevas, coaxial@) == nuevas[viejas.len() as int].1@);
                    assert forall|n: Seq<char>|
                        n != coaxial@ implies #[trigger] spec_lista_asig(nuevas, n)
                        == spec_lista_asig(viejas, n) by {
                        lemma_asig_caracteriza(viejas, n);
                        lemma_asig_ninguno(viejas, n);
                        if spec_asig_indice(viejas, n) is Some {
                            let i = spec_asig_indice(viejas, n)->0;
                            assert(viejas[i].0@ == n);
                            assert(nuevas[i].0@ == n);
                            assert(forall|j: int| 0 <= j < i ==> (#[trigger] nuevas[j]).0@ != n);
                            lemma_asig_indice(nuevas, n, i);
                            assert(nuevas[i].1@ == viejas[i].1@);
                        } else {
                            assert(forall|j: int| 0 <= j < nuevas.len() ==> (
                                #[trigger] nuevas[j]).0@ != n);
                            lemma_asig_indice_none(nuevas, n);
                        }
                    }
                }
            }
        }
    }
}

/// Whether two types may meet: `Unknown` with anything, equal types, and the
/// mutual `Int`/`Bool` coercion.
pub open spec fn spec_compatibles(a: Type, b: Type) -> bool {
    ||| a == Type::Unknown
    ||| b == Type::Unknown
    ||| a == b
    ||| (a == Type::Int && b == Type::Bool)
    ||| (a == Type::Bool && b == Type::Int)
}

/// Decides type compatibility exactly.
pub fn types_are_compatible(actual: &Type, expected: &Type) -> (r: bool)
    ensures
        r == spec_compatibles(*actual, *expected),
{
    if *actual == Type::Unknown || *expected == Type::Unknown {
        return true;
    }
    if *actual == *expected {
        return true;
    }
    match (actual, expected) {
        (Type::Int, Type::Bool) => true,
        (Type::Bool, Type::Int) => true,
        _ => false,
    }
}

/// A copy of an assignment list, equal element by element.
fn clonar_lista_asignaciones(v: &Vec<(String, i32)>) -> (r: Vec<(String, i32)>)
    ensures
        r@ == v@,
{
    let mut r: Vec<(String, i32)> = Vec::new();
    let mut i: usize = 0;
    while i < v.len()
        invariant
            i <= v@.len(),
            r@ == v@.subrange(0, i as int),
        decreases v@.len() - i,
    {
        let par = (v[i].0.clone(), v[i].1);
        proof {
            assert(par == v@[i as int]);
        }
        r.push(par);
        i = i + 1;
        proof {
            assert(r@ =~= v@.subrange(0, i as int));
        }
    }
    proof {
        assert(r@ =~= v@);
    }
    r
}

/// The spacing law on raw position lists, restated for `i32` positions as
/// the shadow table stores them.
pub proof fn lemma_espaciado_push_i32(posiciones: Seq<i32>, posicion: i32, longitud: int)
    requires
        lista_espaciada(posiciones, longitud),
        0 <= posicion <= longitud,
        forall|i: int| 0 <= i < posiciones.len() ==> (#[trigger] posiciones[i] - posicion >= 3
            || posicion - posiciones[i] >= 3),
    ensures
        lista_espaciada(posiciones.push(posicion), longitud),
{
    lemma_espaciado_push(posiciones, posicion, longitud);
}

} // verus!
