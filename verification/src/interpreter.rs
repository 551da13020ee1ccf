//! The tree-walking interpreter: executes the validated syntax tree against
//! a mutable runtime environment mirroring the symbol table, evaluates
//! expressions, and accumulates the program's textual output. The first
//! runtime error aborts the remaining statements.

use vstd::prelude::*;
use crate::ast::{
    altura_stmt, altura_stmts, clonar_stmts, lemma_altura_elemento, lemma_altura_si, vista_stmts,
    Expr, OpLogico, OpRelacional, Program, Statement,
};
use crate::semantic::{cuenta_ocupados, lemma_cuenta_actualiza, SymbolTable};
use crate::texto::{i32_a_cadena, spec_decimal_i32};

verus! {

/// How many nested block calls the interpreter follows before it reports a
/// runtime error; a chain this deep only arises from mutually recursive
/// blocks, which never terminate.
pub const PROFUNDIDAD_MAXIMA: u64 = 64;

/// A runtime value: the language computes over integers, strings and
/// booleans only.
#[derive(Debug, Clone, PartialEq)]
pub enum Value {
    Int(i32),
    Cadena(String),
    Bool(bool),
    Void,
}

/// The integer reading of a value: integers themselves, and booleans as 0
/// or 1.
pub open spec fn spec_as_int(v: Value) -> Option<i32> {
    match v {
        Value::Int(n) => Some(n),
        Value::Bool(b) => Some(
            if b {
                1
            } else {
                0
            },
        ),
        _ => None,
    }
}

/// The boolean reading of a value: booleans themselves, and integers with 0
/// as false.
pub open spec fn spec_as_bool(v: Value) -> Option<bool> {
    match v {
        Value::Bool(b) => Some(b),
        Value::Int(n) => Some(n != 0),
        _ => None,
    }
}

/// The textual form of a value.
pub open spec fn spec_as_string(v: Value) -> Seq<char> {
    match v {
        Value::Int(n) => spec_decimal_i32(n as int),
        Value::Cadena(s) => s@,
        Value::Bool(b) => if b {
            "true"@
        } else {
            "false"@
        },
        Value::Void => "void"@,
    }
}

impl Value {
    /// Reads the value as an integer, coercing booleans.
    pub fn as_int(&self) -> (r: Option<i32>)
        ensures
            r == spec_as_int(*self),
    {
        match self {
            Value::Int(n) => Some(*n),
            Value::Bool(b) => Some(
                if *b {
                    1
                } else {
                    0
                },
            ),
            _ => None,
        }
    }

    /// Reads the value as a boolean, coercing integers.
    pub fn as_bool(&self) -> (r: Option<bool>)
        ensures
            r == spec_as_bool(*self),
    {
        match self {
            Value::Bool(b) => Some(*b),
            Value::Int(n) => Some(*n != 0),
            _ => None,
        }
    }

    /// The textual form of the value.
    pub fn as_string(&self) -> (r: String)
        ensures
            r@ == spec_as_string(*self),
    {
        match self {
            Value::Int(n) => i32_a_cadena(*n),
            Value::Cadena(s) => s.clone(),
            Value::Bool(b) => {
                if *b {
                    String::from_str("true")
                } else {
                    String::from_str("false")
                }
            }
            Value::Void => String::from_str("void"),
        }
    }

    /// The textual form of the value.
    pub fn to_string(&self) -> (r: String)
        ensures
            r@ == spec_as_string(*self),
    {
        self.as_string()
    }
}

/// A machine at run time: its placement and what it is connected to.
#[derive(Debug, Clone, PartialEq)]
pub struct RuntimeMaquina {
    pub nombre: String,
    pub x: i32,
    pub y: i32,
    pub colocada: bool,
    pub conectada_a: Option<ConexionMaquina>,
}

/// What a machine is connected to: a concentrator port or a coaxial
/// position.
#[derive(Debug, Clone, PartialEq)]
pub enum ConexionMaquina {
    Puerto { concentrador: String, puerto: i32 },
    Coaxial { coaxial: String, posicion: i32 },
}

/// A concentrator at run time: its placement, the per-port occupancy map and
/// the count of free ports.
#[derive(Debug, Clone, PartialEq)]
pub struct RuntimeConcentrador {
    pub nombre: String,
    pub puertos: i32,
    pub tiene_coaxial: bool,
    pub x: i32,
    pub y: i32,
    pub colocado: bool,
    pub puertos_ocupados: Vec<bool>,
    pub disponibles: i32,
    pub coaxial_asignado: Option<String>,
}

impl RuntimeConcentrador {
    /// The port map length matches the port count and the free count is the
    /// complement of the taken count.
    pub open spec fn wf(self) -> bool {
        &&& 0 <= self.puertos
        &&& self.puertos_ocupados@.len() == self.puertos
        &&& self.disponibles == self.puertos - cuenta_ocupados(self.puertos_ocupados@)
    }

    /// A fresh concentrator with every port free and no placement.
    pub fn new(nombre: String, puertos: i32, tiene_coaxial: bool) -> (r: RuntimeConcentrador)
        requires
            0 <= puertos,
        ensures
            r.wf(),
            r.nombre == nombre,
            r.puertos == puertos,
            r.tiene_coaxial == tiene_coaxial,
            r.x == 0 && r.y == 0,
            r.colocado == false,
            r.disponibles == puertos,
            r.coaxial_asignado is None,
            forall|i: int| 0 <= i < r.puertos_ocupados@.len() ==> !(#[trigger] r.puertos_ocupados@[
                i]),
    {
        let n = puertos as usize;
        let mut puertos_ocupados: Vec<bool> = Vec::new();
        let mut i: usize = 0;
        while i < n
            invariant
                i <= n,
                puertos_ocupados@.len() == i,
                forall|j: int| 0 <= j < i ==> !(#[trigger] puertos_ocupados@[j]),
            decreases n - i,
        {
            puertos_ocupados.push(false);
            i = i + 1;
        }
        proof {
            lemma_runtime_todos_libres(puertos_ocupados@);
        }
        RuntimeConcentrador {
            nombre,
            puertos,
            tiene_coaxial,
            x: 0,
            y: 0,
            colocado: false,
            puertos_ocupados,
            disponibles: puertos,
            coaxial_asignado: None,
        }
    }

    /// Takes the 1-indexed port when it exists and is free. A failed
    /// attempt (the port is out of range or already taken) changes nothing:
    /// the free count `disponibles` is exactly as before.
    pub fn asignar_puerto(&mut self, puerto: usize) -> (r: bool)
        requires
            old(self).wf(),
        ensures
            final(self).wf(),
            r == (1 <= puerto <= old(self).puertos && !old(self).puertos_ocupados@[puerto - 1]),
            r ==> final(self).puertos_ocupados@ == old(self).puertos_ocupados@.update(
                puerto - 1, true) && final(self).disponibles == old(self).disponibles - 1,
            !r ==> *final(self) == *old(self),
            final(self).nombre == old(self).nombre,
            final(self).puertos == old(self).puertos,
            final(self).tiene_coaxial == old(self).tiene_coaxial,
            final(self).x == old(self).x && final(self).y == old(self).y,
            final(self).colocado == old(self).colocado,
            final(self).coaxial_asignado == old(self).coaxial_asignado,
    {
        if puerto > 0 && puerto <= self.puertos_ocupados.len() && !self.puertos_ocupados[puerto
            - 1] {
            proof {
                lemma_cuenta_actualiza(self.puertos_ocupados@, puerto - 1);
            }
            self.puertos_ocupados[puerto - 1] = true;
            self.disponibles = self.disponibles - 1;
            true
        } else {
            false
        }
    }

    /// The lowest free port, 1-indexed, scanning in ascending order.
    pub fn primer_puerto_disponible(&self) -> (r: Option<usize>)
        ensures
            match r {
                Some(p) => 1 <= p <= self.puertos_ocupados@.len() && !self.puertos_ocupados@[
                    p - 1] && (forall|j: int| 0 <= j < p - 1 ==> self.puertos_ocupados@[j])
                    && spec_primer_libre(self.puertos_ocupados@) == Some(p - 1),
                None => spec_primer_libre(self.puertos_ocupados@) is None && forall|j: int|
                    0 <= j < self.puertos_ocupados@.len() ==> self.puertos_ocupados@[j],
            },
    {
        let mut i: usize = 0;
        while i < self.puertos_ocupados.len()
            invariant
                i <= self.puertos_ocupados@.len(),
                forall|j: int| 0 <= j < i ==> self.puertos_ocupados@[j],
            decreases self.puertos_ocupados@.len() - i,
        {
            if !self.puertos_ocupados[i] {
                proof {
                    lemma_primer_libre(self.puertos_ocupados@, i as int);
                }
                return Some(i + 1);
            }
            i = i + 1;
        }
        proof {
            lemma_primer_libre_none(self.puertos_ocupados@);
        }
        None
    }
}

impl RuntimeMaquina {
    /// A copy equal to the original.
    pub fn copiar(&self) -> (r: RuntimeMaquina)
        ensures
            r == *self,
    {
        RuntimeMaquina {
            nombre: self.nombre.clone(),
            x: self.x,
            y: self.y,
            colocada: self.colocada,
            conectada_a: match &self.conectada_a {
                Some(ConexionMaquina::Puerto { concentrador, puerto }) => Some(
                    ConexionMaquina::Puerto { concentrador: concentrador.clone(), puerto: *puerto },
                ),
                Some(ConexionMaquina::Coaxial { coaxial, posicion }) => Some(
                    ConexionMaquina::Coaxial { coaxial: coaxial.clone(), posicion: *posicion },
                ),
                None => None,
            },
        }
    }
}

/// An all-free port map has no taken port.
proof fn lemma_runtime_todos_libres(s: Seq<bool>)
    requires
        forall|i: int| 0 <= i < s.len() ==> !(#[trigger] s[i]),
    ensures
        cuenta_ocupados(s) == 0,
    decreases s.len(),
{
    if s.len() > 0 {
        lemma_runtime_todos_libres(s.drop_last());
    }
}

impl RuntimeConcentrador {
    /// A copy whose fields carry the same values, the port map compared by
    /// content.
    pub fn copiar(&self) -> (r: RuntimeConcentrador)
        ensures
            r.nombre == self.nombre,
            r.puertos == self.puertos,
            r.tiene_coaxial == self.tiene_coaxial,
            r.x == self.x && r.y == self.y,
            r.colocado == self.colocado,
            r.puertos_ocupados@ == self.puertos_ocupados@,
            r.disponibles == self.disponibles,
            r.coaxial_asignado == self.coaxial_asignado,
            self.wf() ==> r.wf(),
    {
        let mut mapa: Vec<bool> = Vec::new();
        let mut i: usize = 0;
        while i < self.puertos_ocupados.len()
            invariant
                i <= self.puertos_ocupados@.len(),
                mapa@ == self.puertos_ocupados@.subrange(0, i as int),
            decreases self.puertos_ocupados@.len() - i,
        {
            mapa.push(self.puertos_ocupados[i]);
            i = i + 1;
            proof {
                assert(mapa@ =~= self.puertos_ocupados@.subrange(0, i as int));
            }
        }
        proof {
            assert(mapa@ =~= self.puertos_ocupados@);
        }
        RuntimeConcentrador {
            nombre: self.nombre.clone(),
            puertos: self.puertos,
            tiene_coaxial: self.tiene_coaxial,
            x: self.x,
            y: self.y,
            colocado: self.colocado,
            puertos_ocupados: mapa,
            disponibles: self.disponibles,
            coaxial_asignado: match &self.coaxial_asignado {
                Some(c) => Some(c.clone()),
                None => None,
            },
        }
    }
}

/// The positions of the machines attached to a coaxial segment.
pub open spec fn posiciones_runtime(l: Seq<(String, i32)>) -> Seq<i32> {
    l.map_values(|p: (String, i32)| p.1)
}

/// A coaxial segment at run time: its placement and the machines attached
/// along it, with the "complete" flag set once it holds ten machines.
#[derive(Debug, Clone, PartialEq)]
pub struct RuntimeCoaxial {
    pub nombre: String,
    pub longitud: i32,
    pub x: i32,
    pub y: i32,
    pub direccion: String,
    pub colocado: bool,
    pub maquinas: Vec<(String, i32)>,
    pub completo: bool,
}

impl RuntimeCoaxial {
    /// A fresh segment with no machines attached and no placement.
    pub fn new(nombre: String, longitud: i32) -> (r: RuntimeCoaxial)
        ensures
            r.nombre == nombre,
            r.longitud == longitud,
            r.x == 0 && r.y == 0,
            r.direccion@ == Seq::<char>::empty(),
            r.colocado == false,
            r.maquinas@.len() == 0,
            r.completo == false,
    {
        RuntimeCoaxial {
            nombre,
            longitud,
            x: 0,
            y: 0,
            direccion: String::new(),
            colocado: false,
            maquinas: Vec::new(),
            completo: false,
        }
    }

    /// How many machines sit on the segment, capped at the largest 32-bit
    /// value.
    pub fn num_maquinas(&self) -> (r: i32)
        ensures
            r == spec_num_maquinas(*self),
            self.maquinas@.len() <= i32::MAX ==> r == self.maquinas@.len() as i32,
    {
        if self.maquinas.len() <= 2147483647 {
            self.maquinas.len() as i32
        } else {
            i32::MAX
        }
    }

    /// Attaches a machine at a position, unconditionally (the spacing rules
    /// were pre-validated by the analysis). The segment becomes complete
    /// once it holds ten machines.
    pub fn agregar_maquina(&mut self, nombre: String, posicion: i32)
        ensures
            final(self).maquinas@ == old(self).maquinas@.push((nombre, posicion)),
            final(self).completo == (old(self).completo || final(self).maquinas@.len() >= 10),
            final(self).nombre == old(self).nombre,
            final(self).longitud == old(self).longitud,
            final(self).x == old(self).x && final(self).y == old(self).y,
            final(self).direccion == old(self).direccion,
            final(self).colocado == old(self).colocado,
    {
        self.maquinas.push((nombre, posicion));
        if self.maquinas.len() >= 10 {
            self.completo = true;
        }
    }

    /// Whether a position keeps at least three meters from every machine on
    /// the segment.
    pub open spec fn spec_lejos_de_todas(self, posicion: int) -> bool {
        forall|i: int| 0 <= i < self.maquinas@.len() ==> ((#[trigger] self.maquinas@[i]).1
            - posicion >= 3 || posicion - self.maquinas@[i].1 >= 3)
    }

    /// The first candidate position, stepping three meters at a time from
    /// the start of the cable, that keeps three meters from every machine;
    /// none may exist within the length.
    pub fn buscar_posicion_disponible(&self) -> (r: Option<i32>)
        ensures
            match r {
                Some(p) => self.spec_lejos_de_todas(p as int) && p % 3 == 0 && 0 <= p
                    && p <= self.longitud && forall|q: int|
                    0 <= q < p && #[trigger] (q % 3) == 0 ==> !self.spec_lejos_de_todas(q),
                None => forall|q: int|
                    0 <= q <= self.longitud && #[trigger] (q % 3) == 0 ==> !self
                        .spec_lejos_de_todas(q),
            },
    {
        if self.longitud < 0 {
            return None;
        }
        let mut pos: i64 = 0;
        let tope: i64 = self.longitud as i64;
        while pos <= tope
            invariant
                0 <= pos <= tope + 3,
                tope == self.longitud as int,
                pos % 3 == 0,
                forall|q: int| 0 <= q < pos && #[trigger] (q % 3) == 0 ==> !self
                    .spec_lejos_de_todas(q),
            decreases tope + 3 - pos,
        {
            let intento: i32 = pos as i32;
            let mut valido: bool = true;
            let mut i: usize = 0;
            while i < self.maquinas.len()
                invariant
                    i <= self.maquinas@.len(),
                    valido == (forall|j: int| 0 <= j < i ==> ((#[trigger] self.maquinas@[j]).1
                        - intento >= 3 || intento - self.maquinas@[j].1 >= 3)),
                    -2147483648 <= intento <= 2147483647,
                decreases self.maquinas@.len() - i,
            {
                let p: i64 = self.maquinas[i].1 as i64;
                let q: i64 = intento as i64;
                let d: i64 = if p >= q {
                    p - q
                } else {
                    q - p
                };
                if d < 3 {
                    valido = false;
                }
                i = i + 1;
            }
            if valido {
                return Some(intento);
            }
            proof {
                assert forall|q: int| 0 <= q < pos + 3 && #[trigger] (q % 3) == 0 implies !self
                    .spec_lejos_de_todas(q) by {
                    if q >= pos {
                        assert(q == pos);
                    }
                }
            }
            pos = pos + 3;
        }
        proof {
            assert forall|q: int| 0 <= q <= self.longitud && #[trigger] (q % 3) == 0 implies !self
                .spec_lejos_de_todas(q) by {
                assert(q < pos);
            }
        }
        None
    }
}

impl RuntimeCoaxial {
    /// A copy whose fields carry the same values, the machine list compared
    /// by content.
    pub fn copiar(&self) -> (r: RuntimeCoaxial)
        ensures
            r.nombre == self.nombre,
            r.longitud == self.longitud,
            r.x == self.x && r.y == self.y,
            r.direccion == self.direccion,
            r.colocado == self.colocado,
            r.maquinas@ == self.maquinas@,
            r.completo == self.completo,
    {
        let mut lista: Vec<(String, i32)> = Vec::new();
        let mut i: usize = 0;
        while i < self.maquinas.len()
            invariant
                i <= self.maquinas@.len(),
                lista@ == self.maquinas@.subrange(0, i as int),
            decreases self.maquinas@.len() - i,
        {
            let par = (self.maquinas[i].0.clone(), self.maquinas[i].1);
            proof {
                assert(par == self.maquinas@[i as int]);
            }
            lista.push(par);
            i = i + 1;
            proof {
                assert(lista@ =~= self.maquinas@.subrange(0, i as int));
            }
        }
        proof {
            assert(lista@ =~= self.maquinas@);
        }
        RuntimeCoaxial {
            nombre: self.nombre.clone(),
            longitud: self.longitud,
            x: self.x,
            y: self.y,
            direccion: self.direccion.clone(),
            colocado: self.colocado,
            maquinas: lista,
            completo: self.completo,
        }
    }
}


/// The first machine with the given name, by index.
pub open spec fn spec_indice_maquina(ms: Seq<RuntimeMaquina>, nombre: Seq<char>) -> Option<int>
    decreases ms.len(),
{
    if ms.len() == 0 {
        None
    } else if ms.first().nombre@ == nombre {
        Some(0)
    } else {
        match spec_indice_maquina(ms.drop_first(), nombre) {
            Some(i) => Some(i + 1),
            None => None,
        }
    }
}

/// The first concentrator with the given name, by index.
pub open spec fn spec_indice_concentrador(
    cs: Seq<RuntimeConcentrador>,
    nombre: Seq<char>,
) -> Option<int>
    decreases cs.len(),
{
    if cs.len() == 0 {
        None
    } else if cs.first().nombre@ == nombre {
        Some(0)
    } else {
        match spec_indice_concentrador(cs.drop_first(), nombre) {
            Some(i) => Some(i + 1),
            None => None,
        }
    }
}

/// The first coaxial segment with the given name, by index.
pub open spec fn spec_indice_coaxial(cs: Seq<RuntimeCoaxial>, nombre: Seq<char>) -> Option<int>
    decreases cs.len(),
{
    if cs.len() == 0 {
        None
    } else if cs.first().nombre@ == nombre {
        Some(0)
    } else {
        match spec_indice_coaxial(cs.drop_first(), nombre) {
            Some(i) => Some(i + 1),
            None => None,
        }
    }
}

/// The scan that found a first match agrees with the spec lookup.
proof fn lemma_indice_maquina(ms: Seq<RuntimeMaquina>, nombre: Seq<char>, i: int)
    requires
        0 <= i < ms.len(),
        ms[i].nombre@ == nombre,
        forall|j: int| 0 <= j < i ==> (#[trigger] ms[j]).nombre@ != nombre,
    ensures
        spec_indice_maquina(ms, nombre) == Some(i),
    decreases ms.len(),
{
    if i > 0 {
        lemma_indice_maquina(ms.drop_first(), nombre, i - 1);
    }
}

/// A scan without a match agrees with the spec lookup.
proof fn lemma_indice_maquina_none(ms: Seq<RuntimeMaquina>, nombre: Seq<char>)
    requires
        forall|j: int| 0 <= j < ms.len() ==> (#[trigger] ms[j]).nombre@ != nombre,
    ensures
        spec_indice_maquina(ms, nombre) is None,
    decreases ms.len(),
{
    if ms.len() > 0 {
        lemma_indice_maquina_none(ms.drop_first(), nombre);
    }
}

/// The scan that found a first match agrees with the spec lookup.
proof fn lemma_indice_concentrador(cs: Seq<RuntimeConcentrador>, nombre: Seq<char>, i: int)
    requires
        0 <= i < cs.len(),
        cs[i].nombre@ == nombre,
        forall|j: int| 0 <= j < i ==> (#[trigger] cs[j]).nombre@ != nombre,
    ensures
        spec_indice_concentrador(cs, nombre) == Some(i),
    decreases cs.len(),
{
    if i > 0 {
        lemma_indice_concentrador(cs.drop_first(), nombre, i - 1);
    }
}

/// A scan without a match agrees with the spec lookup.
proof fn lemma_indice_concentrador_none(cs: Seq<RuntimeConcentrador>, nombre: Seq<char>)
    requires
        forall|j: int| 0 <= j < cs.len() ==> (#[trigger] cs[j]).nombre@ != nombre,
    ensures
        spec_indice_concentrador(cs, nombre) is None,
    decreases cs.len(),
{
    if cs.len() > 0 {
        lemma_indice_concentrador_none(cs.drop_first(), nombre);
    }
}

/// The scan that found a first match agrees with the spec lookup.
proof fn lemma_indice_coaxial(cs: Seq<RuntimeCoaxial>, nombre: Seq<char>, i: int)
    requires
        0 <= i < cs.len(),
        cs[i].nombre@ == nombre,
        forall|j: int| 0 <= j < i ==> (#[trigger] cs[j]).nombre@ != nombre,
    ensures
        spec_indice_coaxial(cs, nombre) == Some(i),
    decreases cs.len(),
{
    if i > 0 {
        lemma_indice_coaxial(cs.drop_first(), nombre, i - 1);
    }
}

/// A scan without a match agrees with the spec lookup.
proof fn lemma_indice_coaxial_none(cs: Seq<RuntimeCoaxial>, nombre: Seq<char>)
    requires
        forall|j: int| 0 <= j < cs.len() ==> (#[trigger] cs[j]).nombre@ != nombre,
    ensures
        spec_indice_coaxial(cs, nombre) is None,
    decreases cs.len(),
{
    if cs.len() > 0 {
        lemma_indice_coaxial_none(cs.drop_first(), nombre);
    }
}


/// The number of machines a segment reports: its list length, capped at the
/// largest 32-bit value.
pub open spec fn spec_num_maquinas(c: RuntimeCoaxial) -> i32 {
    if c.maquinas@.len() <= i32::MAX {
        c.maquinas@.len() as i32
    } else {
        i32::MAX
    }
}

/// The value of a field access: the fixed field vocabulary of concentrators
/// (`puertos`, `disponibles`, `presente`, `coaxial`) and coaxial segments
/// (`longitud`, `completo`, `num`, `presente`); concentrators are consulted
/// first; anything else has no value.
pub open spec fn spec_eval_campo(env: Environment, objeto: Seq<char>, campo: Seq<char>) -> Result<
    Value,
    (),
> {
    match spec_indice_concentrador(env.concentradores@, objeto) {
        Some(i) => {
            let c = env.concentradores@[i];
            if campo == "puertos"@ {
                Ok(Value::Int(c.puertos))
            } else if campo == "disponibles"@ {
                Ok(Value::Int(c.disponibles))
            } else if campo == "presente"@ {
                Ok(Value::Bool(c.colocado))
            } else if campo == "coaxial"@ {
                Ok(
                    Value::Int(
                        if c.tiene_coaxial {
                            1
                        } else {
                            0
                        },
                    ),
                )
            } else {
                Err(())
            }
        },
        None => match spec_indice_coaxial(env.coaxiales@, objeto) {
            Some(i) => {
                let c = env.coaxiales@[i];
                if campo == "longitud"@ {
                    Ok(Value::Int(c.longitud))
                } else if campo == "completo"@ {
                    Ok(Value::Bool(c.completo))
                } else if campo == "num"@ {
                    Ok(Value::Int(spec_num_maquinas(c)))
                } else if campo == "presente"@ {
                    Ok(Value::Bool(c.colocado))
                } else {
                    Err(())
                }
            },
            None => Err(()),
        },
    }
}

/// The value of an indexed access `concentrador.p[i]`: whether the 1-based
/// port `i` of the named concentrator is occupied; anything else has no
/// value.
pub open spec fn spec_eval_arreglo(env: Environment, objeto: Seq<char>, idx: i32) -> Result<
    Value,
    (),
> {
    let partes = crate::texto::spec_dividida(objeto, '.');
    if partes.len() == 2 && partes[1] == "p"@ {
        match spec_indice_concentrador(env.concentradores@, partes[0]) {
            Some(i) => {
                let c = env.concentradores@[i];
                if 0 < idx && idx <= c.puertos {
                    Ok(Value::Bool(c.puertos_ocupados@[idx - 1]))
                } else {
                    Err(())
                }
            },
            None => Err(()),
        }
    } else {
        Err(())
    }
}

/// Relational comparison: as integers when both sides read as integers,
/// otherwise textual equality or inequality only.
pub open spec fn spec_relacional(izq: Value, op: OpRelacional, der: Value) -> Result<Value, ()> {
    match (spec_as_int(izq), spec_as_int(der)) {
        (Some(a), Some(b)) => Ok(
            Value::Bool(
                match op {
                    OpRelacional::Igual => a == b,
                    OpRelacional::Diferente => a != b,
                    OpRelacional::Menor => a < b,
                    OpRelacional::Mayor => a > b,
                    OpRelacional::MenorIgual => a <= b,
                    OpRelacional::MayorIgual => a >= b,
                },
            ),
        ),
        _ => match op {
            OpRelacional::Igual => Ok(Value::Bool(spec_as_string(izq) == spec_as_string(der))),
            OpRelacional::Diferente => Ok(Value::Bool(spec_as_string(izq) != spec_as_string(der))),
            _ => Err(()),
        },
    }
}

/// Conjunction and disjunction over boolean-coercible values.
pub open spec fn spec_logico(izq: Value, op: OpLogico, der: Value) -> Result<Value, ()> {
    match (spec_as_bool(izq), spec_as_bool(der)) {
        (Some(a), Some(b)) => Ok(
            Value::Bool(
                match op {
                    OpLogico::And => a && b,
                    OpLogico::Or => a || b,
                },
            ),
        ),
        _ => Err(()),
    }
}

/// The value of an expression over an environment: literals are themselves,
/// a bare identifier of a network object has no scalar value, accesses read
/// the environment, and the operators combine their operands' values.
/// Evaluation never changes the environment.
pub open spec fn spec_eval(env: Environment, e: Expr) -> Result<Value, ()>
    decreases e,
{
    match e {
        Expr::Numero(n) => Ok(Value::Int(n)),
        Expr::Cadena(s) => Ok(Value::Cadena(s)),
        Expr::Identificador(_) => Err(()),
        Expr::AccesoCampo { objeto, campo } => spec_eval_campo(env, objeto@, campo@),
        Expr::AccesoArreglo { objeto, indice } => match spec_eval(env, *indice) {
            Ok(v) => match spec_as_int(v) {
                Some(idx) => spec_eval_arreglo(env, objeto@, idx),
                None => Err(()),
            },
            Err(x) => Err(x),
        },
        Expr::Relacional { izq, op, der } => match spec_eval(env, *izq) {
            Ok(a) => match spec_eval(env, *der) {
                Ok(b) => spec_relacional(a, op, b),
                Err(x) => Err(x),
            },
            Err(x) => Err(x),
        },
        Expr::Logico { izq, op, der } => match spec_eval(env, *izq) {
            Ok(a) => match spec_eval(env, *der) {
                Ok(b) => spec_logico(a, op, b),
                Err(x) => Err(x),
            },
            Err(x) => Err(x),
        },
        Expr::Not(inner) => match spec_eval(env, *inner) {
            Ok(v) => match spec_as_bool(v) {
                Some(b) => Ok(Value::Bool(!b)),
                None => Err(()),
            },
            Err(x) => Err(x),
        },
    }
}

/// The integer reading of an expression's value, if it has one.
pub open spec fn spec_eval_entero(env: Environment, e: Expr) -> Option<i32> {
    match spec_eval(env, e) {
        Ok(v) => spec_as_int(v),
        Err(_) => None,
    }
}

/// Spells out one unfolding of `spec_eval` per variant, for use in
/// executable code, where the definition of a height-measured recursive spec
/// function does not unfold on its own.
proof fn lemma_eval_def(env: Environment, e: Expr)
    ensures
        spec_eval(env, e) == match e {
            Expr::Numero(n) => Ok::<Value, ()>(Value::Int(n)),
            Expr::Cadena(s) => Ok(Value::Cadena(s)),
            Expr::Identificador(_) => Err(()),
            Expr::AccesoCampo { objeto, campo } => spec_eval_campo(env, objeto@, campo@),
            Expr::AccesoArreglo { objeto, indice } => match spec_eval(env, *indice) {
                Ok(v) => match spec_as_int(v) {
                    Some(idx) => spec_eval_arreglo(env, objeto@, idx),
                    None => Err(()),
                },
                Err(x) => Err(x),
            },
            Expr::Relacional { izq, op, der } => match spec_eval(env, *izq) {
                Ok(a) => match spec_eval(env, *der) {
                    Ok(b) => spec_relacional(a, op, b),
                    Err(x) => Err(x),
                },
                Err(x) => Err(x),
            },
            Expr::Logico { izq, op, der } => match spec_eval(env, *izq) {
                Ok(a) => match spec_eval(env, *der) {
                    Ok(b) => spec_logico(a, op, b),
                    Err(x) => Err(x),
                },
                Err(x) => Err(x),
            },
            Expr::Not(inner) => match spec_eval(env, *inner) {
                Ok(v) => match spec_as_bool(v) {
                    Some(b) => Ok(Value::Bool(!b)),
                    None => Err(()),
                },
                Err(x) => Err(x),
            },
        },
{
}


/// The lowest free 0-based port index, if any.
pub open spec fn spec_primer_libre(s: Seq<bool>) -> Option<int>
    decreases s.len(),
{
    if s.len() == 0 {
        None
    } else if !s.first() {
        Some(0)
    } else {
        match spec_primer_libre(s.drop_first()) {
            Some(i) => Some(i + 1),
            None => None,
        }
    }
}

/// A scan that found the first free port agrees with the spec lookup.
proof fn lemma_primer_libre(s: Seq<bool>, i: int)
    requires
        0 <= i < s.len(),
        !s[i],
        forall|j: int| 0 <= j < i ==> s[j],
    ensures
        spec_primer_libre(s) == Some(i),
    decreases s.len(),
{
    if i > 0 {
        lemma_primer_libre(s.drop_first(), i - 1);
    }
}

/// A scan over a fully taken port map agrees with the spec lookup.
proof fn lemma_primer_libre_none(s: Seq<bool>)
    requires
        forall|j: int| 0 <= j < s.len() ==> s[j],
    ensures
        spec_primer_libre(s) is None,
    decreases s.len(),
{
    if s.len() > 0 {
        lemma_primer_libre_none(s.drop_first());
    }
}

/// The display name a placement statement stores for a direction.
pub open spec fn spec_nombre_direccion(d: crate::ast::Direccion) -> Seq<char> {
    match d {
        crate::ast::Direccion::Arriba => "Arriba"@,
        crate::ast::Direccion::Abajo => "Abajo"@,
        crate::ast::Direccion::Izquierda => "Izquierda"@,
        crate::ast::Direccion::Derecha => "Derecha"@,
    }
}

/// A concentrator placed at (x, y), otherwise unchanged.
pub open spec fn conc_colocado(n: RuntimeConcentrador, v: RuntimeConcentrador, x: i32, y: i32) -> bool {
    &&& n.nombre == v.nombre
    &&& n.puertos == v.puertos
    &&& n.tiene_coaxial == v.tiene_coaxial
    &&& n.x == x && n.y == y
    &&& n.colocado == true
    &&& n.puertos_ocupados@ == v.puertos_ocupados@
    &&& n.disponibles == v.disponibles
    &&& n.coaxial_asignado == v.coaxial_asignado
}

/// A concentrator whose 1-based port `p` was just taken, otherwise
/// unchanged.
pub open spec fn conc_con_puerto(n: RuntimeConcentrador, v: RuntimeConcentrador, p: int) -> bool {
    &&& n.nombre == v.nombre
    &&& n.puertos == v.puertos
    &&& n.tiene_coaxial == v.tiene_coaxial
    &&& n.x == v.x && n.y == v.y
    &&& n.colocado == v.colocado
    &&& n.puertos_ocupados@ == v.puertos_ocupados@.update(p - 1, true)
    &&& n.disponibles == v.disponibles - 1
    &&& n.coaxial_asignado == v.coaxial_asignado
}

/// A concentrator whose coaxial uplink was just wired, otherwise unchanged.
pub open spec fn conc_con_coaxial(n: RuntimeConcentrador, v: RuntimeConcentrador, c: String) -> bool {
    &&& n.nombre == v.nombre
    &&& n.puertos == v.puertos
    &&& n.tiene_coaxial == v.tiene_coaxial
    &&& n.x == v.x && n.y == v.y
    &&& n.colocado == v.colocado
    &&& n.puertos_ocupados@ == v.puertos_ocupados@
    &&& n.disponibles == v.disponibles
    &&& n.coaxial_asignado == Some(c)
}

/// A coaxial segment placed at (x, y) in a direction, otherwise unchanged.
pub open spec fn coax_colocado(
    n: RuntimeCoaxial,
    v: RuntimeCoaxial,
    x: i32,
    y: i32,
    dir: Seq<char>,
) -> bool {
    &&& n.nombre == v.nombre
    &&& n.longitud == v.longitud
    &&& n.x == x && n.y == y
    &&& n.direccion@ == dir
    &&& n.colocado == true
    &&& n.maquinas@ == v.maquinas@
    &&& n.completo == v.completo
}

/// A coaxial segment with one machine just attached, complete once it holds
/// ten, otherwise unchanged.
pub open spec fn coax_con_maquina(
    n: RuntimeCoaxial,
    v: RuntimeCoaxial,
    m: String,
    pos: i32,
) -> bool {
    &&& n.nombre == v.nombre
    &&& n.longitud == v.longitud
    &&& n.x == v.x && n.y == v.y
    &&& n.direccion == v.direccion
    &&& n.colocado == v.colocado
    &&& n.maquinas@ == v.maquinas@.push((m, pos))
    &&& n.completo == (v.completo || v.maquinas@.len() + 1 >= 10)
}

/// The newline-joined form of an output log.
pub open spec fn spec_unidas(l: Seq<Seq<char>>) -> Seq<char>
    decreases l.len(),
{
    if l.len() == 0 {
        Seq::<char>::empty()
    } else if l.len() == 1 {
        l[0]
    } else {
        l[0] + seq!['\n'] + spec_unidas(l.drop_first())
    }
}

/// Joining one more line appends a newline and the line.
proof fn lemma_unidas_push(l: Seq<Seq<char>>, x: Seq<char>)
    requires
        l.len() > 0,
    ensures
        spec_unidas(l.push(x)) == spec_unidas(l) + seq!['\n'] + x,
    decreases l.len(),
{
    if l.len() == 1 {
        assert(l.push(x).drop_first() =~= seq![x]);
        assert(l.push(x)[0] == l[0]);
        assert(spec_unidas(seq![x]) == x);
        assert(spec_unidas(l) == l[0]);
    } else {
        assert(l.push(x).drop_first() =~= l.drop_first().push(x));
        assert(l.push(x)[0] == l[0]);
        lemma_unidas_push(l.drop_first(), x);
        assert(l[0] + seq!['\n'] + (spec_unidas(l.drop_first()) + seq!['\n'] + x) =~= (l[0]
            + seq!['\n'] + spec_unidas(l.drop_first())) + seq!['\n'] + x);
    }
}

/// The views of an output log.
pub open spec fn vistas_salida(l: Seq<String>) -> Seq<Seq<char>> {
    l.map_values(|s: String| s@)
}

/// The runtime environment: the live network objects, the registered named
/// blocks, and the append-only output log.
#[derive(Debug)]
pub struct Environment {
    pub maquinas: Vec<RuntimeMaquina>,
    pub concentradores: Vec<RuntimeConcentrador>,
    pub coaxiales: Vec<RuntimeCoaxial>,
    pub modulos: Vec<(String, Vec<Statement>)>,
    pub output: Vec<String>,
}

impl Environment {
    /// Every concentrator's port bookkeeping is sound.
    pub open spec fn wf(self) -> bool {
        forall|i: int| 0 <= i < self.concentradores@.len() ==> (
        #[trigger] self.concentradores@[i]).wf()
    }

    /// An empty environment.
    pub fn new() -> (r: Environment)
        ensures
            r.wf(),
            r.maquinas@.len() == 0,
            r.concentradores@.len() == 0,
            r.coaxiales@.len() == 0,
            r.modulos@.len() == 0,
            r.output@.len() == 0,
    {
        Environment {
            maquinas: Vec::new(),
            concentradores: Vec::new(),
            coaxiales: Vec::new(),
            modulos: Vec::new(),
            output: Vec::new(),
        }
    }

    /// Creates one live object per declared symbol: machines unplaced and
    /// unconnected, concentrators with every port free, coaxial segments
    /// with no machines.
    pub fn inicializar_desde_simbolos(&mut self, symbol_table: &SymbolTable)
        requires
            old(self).wf(),
            symbol_table.wf(),
        ensures
            final(self).wf(),
            final(self).maquinas@.len() == old(self).maquinas@.len()
                + symbol_table.maquinas@.len(),
            final(self).concentradores@.len() == old(self).concentradores@.len()
                + symbol_table.concentradores@.len(),
            final(self).coaxiales@.len() == old(self).coaxiales@.len()
                + symbol_table.coaxiales@.len(),
            forall|i: int| 0 <= i < old(self).maquinas@.len() ==> final(self).maquinas@[i] == old(
                self).maquinas@[i],
            forall|i: int| 0 <= i < old(self).concentradores@.len() ==> final(
                self).concentradores@[i] == old(self).concentradores@[i],
            forall|i: int| 0 <= i < old(self).coaxiales@.len() ==> final(self).coaxiales@[i]
                == old(self).coaxiales@[i],
            forall|i: int| 0 <= i < symbol_table.maquinas@.len() ==> #[trigger] final(
                self).maquinas@[old(self).maquinas@.len() + i] == (RuntimeMaquina {
                    nombre: symbol_table.maquinas@[i].nombre,
                    x: 0,
                    y: 0,
                    colocada: false,
                    conectada_a: None,
                }),
            forall|i: int| 0 <= i < symbol_table.concentradores@.len() ==> ({
                let nuevo = #[trigger] final(self).concentradores@[old(
                    self).concentradores@.len() + i];
                let sym = symbol_table.concentradores@[i];
                &&& nuevo.nombre == sym.nombre
                &&& nuevo.puertos == sym.puertos
                &&& nuevo.tiene_coaxial == sym.tiene_coaxial
                &&& nuevo.x == 0 && nuevo.y == 0
                &&& nuevo.colocado == false
                &&& nuevo.disponibles == sym.puertos
                &&& nuevo.coaxial_asignado is None
                &&& nuevo.puertos_ocupados@.len() == sym.puertos
                &&& forall|q: int| 0 <= q < nuevo.puertos_ocupados@.len() ==> !(
                    #[trigger] nuevo.puertos_ocupados@[q])
            }),
            forall|i: int| 0 <= i < symbol_table.coaxiales@.len() ==> ({
                let nuevo = #[trigger] final(self).coaxiales@[old(self).coaxiales@.len() + i];
                let sym = symbol_table.coaxiales@[i];
                &&& nuevo.nombre == sym.nombre
                &&& nuevo.longitud == sym.longitud
                &&& nuevo.x == 0 && nuevo.y == 0
                &&& nuevo.direccion@ == Seq::<char>::empty()
                &&& nuevo.colocado == false
                &&& nuevo.maquinas@.len() == 0
                &&& nuevo.completo == false
            }),
            final(self).modulos == old(self).modulos,
            final(self).output == old(self).output,
    {
        let mut i: usize = 0;
        while i < symbol_table.maquinas.len()
            invariant
                self.wf(),
                symbol_table.wf(),
                i <= symbol_table.maquinas@.len(),
                self.maquinas@.len() == old(self).maquinas@.len() + i,
                forall|j: int| 0 <= j < old(self).maquinas@.len() ==> self.maquinas@[j] == old(
                    self).maquinas@[j],
                forall|j: int| 0 <= j < i ==> #[trigger] self.maquinas@[old(
                    self).maquinas@.len() + j] == (RuntimeMaquina {
                        nombre: symbol_table.maquinas@[j].nombre,
                        x: 0,
                        y: 0,
                        colocada: false,
                        conectada_a: None,
                    }),
                self.concentradores == old(self).concentradores,
                self.coaxiales == old(self).coaxiales,
                self.modulos == old(self).modulos,
                self.output == old(self).output,
            decreases symbol_table.maquinas@.len() - i,
        {
            let sym = &symbol_table.maquinas[i];
            self.maquinas.push(RuntimeMaquina {
                nombre: sym.nombre.clone(),
                x: 0,
                y: 0,
                colocada: false,
                conectada_a: None,
            });
            i = i + 1;
        }
        let mut j: usize = 0;
        while j < symbol_table.concentradores.len()
            invariant
                self.wf(),
                symbol_table.wf(),
                j <= symbol_table.concentradores@.len(),
                self.maquinas@.len() == old(self).maquinas@.len() + symbol_table.maquinas@.len(),
                forall|q: int| 0 <= q < old(self).maquinas@.len() ==> self.maquinas@[q] == old(
                    self).maquinas@[q],
                forall|q: int| 0 <= q < symbol_table.maquinas@.len() ==> #[trigger] self.maquinas@[
                    old(self).maquinas@.len() + q] == (RuntimeMaquina {
                        nombre: symbol_table.maquinas@[q].nombre,
                        x: 0,
                        y: 0,
                        colocada: false,
                        conectada_a: None,
                    }),
                self.concentradores@.len() == old(self).concentradores@.len() + j,
                forall|q: int| 0 <= q < old(self).concentradores@.len() ==> self.concentradores@[
                    q] == old(self).concentradores@[q],
                forall|q: int| 0 <= q < j ==> ({
                    let nuevo = #[trigger] self.concentradores@[old(self).concentradores@.len()
                        + q];
                    let sym = symbol_table.concentradores@[q];
                    &&& nuevo.nombre == sym.nombre
                    &&& nuevo.puertos == sym.puertos
                    &&& nuevo.tiene_coaxial == sym.tiene_coaxial
                    &&& nuevo.x == 0 && nuevo.y == 0
                    &&& nuevo.colocado == false
                    &&& nuevo.disponibles == sym.puertos
                    &&& nuevo.coaxial_asignado is None
                    &&& nuevo.puertos_ocupados@.len() == sym.puertos
                    &&& forall|w: int| 0 <= w < nuevo.puertos_ocupados@.len() ==> !(
                        #[trigger] nuevo.puertos_ocupados@[w])
                }),
                self.coaxiales == old(self).coaxiales,
                self.modulos == old(self).modulos,
                self.output == old(self).output,
            decreases symbol_table.concentradores@.len() - j,
        {
            let sym = &symbol_table.concentradores[j];
            proof {
                assert(symbol_table.concentradores@[j as int].wf());
            }
            let nuevo = RuntimeConcentrador::new(sym.nombre.clone(), sym.puertos,
                sym.tiene_coaxial);
            self.concentradores.push(nuevo);
            j = j + 1;
        }
        let mut k: usize = 0;
        while k < symbol_table.coaxiales.len()
            invariant
                self.wf(),
                k <= symbol_table.coaxiales@.len(),
                self.maquinas@.len() == old(self).maquinas@.len() + symbol_table.maquinas@.len(),
                forall|q: int| 0 <= q < old(self).maquinas@.len() ==> self.maquinas@[q] == old(
                    self).maquinas@[q],
                forall|q: int| 0 <= q < symbol_table.maquinas@.len() ==> #[trigger] self.maquinas@[
                    old(self).maquinas@.len() + q] == (RuntimeMaquina {
                        nombre: symbol_table.maquinas@[q].nombre,
                        x: 0,
                        y: 0,
                        colocada: false,
                        conectada_a: None,
                    }),
                self.concentradores@.len() == old(self).concentradores@.len()
                    + symbol_table.concentradores@.len(),
                forall|q: int| 0 <= q < old(self).concentradores@.len() ==> self.concentradores@[
                    q] == old(self).concentradores@[q],
                forall|q: int| 0 <= q < symbol_table.concentradores@.len() ==> ({
                    let nuevo = #[trigger] self.concentradores@[old(self).concentradores@.len()
                        + q];
                    let sym = symbol_table.concentradores@[q];
                    &&& nuevo.nombre == sym.nombre
                    &&& nuevo.puertos == sym.puertos
                    &&& nuevo.tiene_coaxial == sym.tiene_coaxial
                    &&& nuevo.x == 0 && nuevo.y == 0
                    &&& nuevo.colocado == false
                    &&& nuevo.disponibles == sym.puertos
                    &&& nuevo.coaxial_asignado is None
                    &&& nuevo.puertos_ocupados@.len() == sym.puertos
                    &&& forall|w: int| 0 <= w < nuevo.puertos_ocupados@.len() ==> !(
                        #[trigger] nuevo.puertos_ocupados@[w])
                }),
                self.coaxiales@.len() == old(self).coaxiales@.len() + k,
                forall|q: int| 0 <= q < old(self).coaxiales@.len() ==> self.coaxiales@[q] == old(
                    self).coaxiales@[q],
                forall|q: int| 0 <= q < k ==> ({
                    let nuevo = #[trigger] self.coaxiales@[old(self).coaxiales@.len() + q];
                    let sym = symbol_table.coaxiales@[q];
                    &&& nuevo.nombre == sym.nombre
                    &&& nuevo.longitud == sym.longitud
                    &&& nuevo.x == 0 && nuevo.y == 0
                    &&& nuevo.direccion@ == Seq::<char>::empty()
                    &&& nuevo.colocado == false
                    &&& nuevo.maquinas@.len() == 0
                    &&& nuevo.completo == false
                }),
                self.modulos == old(self).modulos,
                self.output == old(self).output,
            decreases symbol_table.coaxiales@.len() - k,
        {
            let sym = &symbol_table.coaxiales[k];
            self.coaxiales.push(RuntimeCoaxial::new(sym.nombre.clone(), sym.longitud));
            k = k + 1;
        }
    }

    /// Appends one line to the output log.
    pub fn escribir(&mut self, mensaje: String)
        ensures
            final(self).output@ == old(self).output@.push(mensaje),
            final(self).maquinas == old(self).maquinas,
            final(self).concentradores == old(self).concentradores,
            final(self).coaxiales == old(self).coaxiales,
            final(self).modulos == old(self).modulos,
    {
        self.output.push(mensaje);
    }

    /// The whole output, one line per `escribe`, joined with newlines.
    pub fn obtener_output(&self) -> (r: String)
        ensures
            r@ == spec_unidas(vistas_salida(self.output@)),
    {
        let mut r = String::new();
        let mut i: usize = 0;
        proof {
            assert(vistas_salida(self.output@.subrange(0, 0)) =~= Seq::<Seq<char>>::empty());
        }
        while i < self.output.len()
            invariant
                i <= self.output@.len(),
                r@ == spec_unidas(vistas_salida(self.output@.subrange(0, i as int))),
            decreases self.output@.len() - i,
        {
            proof {
                let pref = vistas_salida(self.output@.subrange(0, i as int));
                let ext = vistas_salida(self.output@.subrange(0, i + 1 as int));
                assert(ext =~= pref.push(self.output@[i as int]@));
                if pref.len() > 0 {
                    lemma_unidas_push(pref, self.output@[i as int]@);
                } else {
                    assert(spec_unidas(ext) == ext[0]);
                }
            }
            if i > 0 {
                let mut con_salto = r;
                crate::texto::empujar_char(&mut con_salto, '\n');
                r = con_salto.concat(self.output[i].as_str());
            } else {
                r = self.output[i].clone();
            }
            proof {
                assert(r@ =~= spec_unidas(vistas_salida(self.output@.subrange(0, i + 1 as int))));
            }
            i = i + 1;
        }
        proof {
            assert(self.output@.subrange(0, self.output@.len() as int) =~= self.output@);
        }
        r
    }

    /// The index of a machine by name.
    pub fn indice_maquina(&self, nombre: &String) -> (r: Option<usize>)
        ensures
            match r {
                Some(i) => i < self.maquinas@.len() && self.maquinas@[i as int].nombre@ == nombre@
                    && spec_indice_maquina(self.maquinas@, nombre@) == Some(i as int),
                None => spec_indice_maquina(self.maquinas@, nombre@) is None && forall|i: int|
                    0 <= i < self.maquinas@.len() ==> (#[trigger] self.maquinas@[i]).nombre@
                    != nombre@,
            },
    {
        let mut i: usize = 0;
        while i < self.maquinas.len()
            invariant
                i <= self.maquinas@.len(),
                forall|j: int| 0 <= j < i ==> (#[trigger] self.maquinas@[j]).nombre@ != nombre@,
            decreases self.maquinas@.len() - i,
        {
            if self.maquinas[i].nombre.eq(nombre) {
                proof {
                    lemma_indice_maquina(self.maquinas@, nombre@, i as int);
                }
                return Some(i);
            }
            i = i + 1;
        }
        proof {
            lemma_indice_maquina_none(self.maquinas@, nombre@);
        }
        None
    }

    /// The index of a concentrator by name.
    pub fn indice_concentrador(&self, nombre: &String) -> (r: Option<usize>)
        ensures
            match r {
                Some(i) => i < self.concentradores@.len() && self.concentradores@[
                    i as int].nombre@ == nombre@ && spec_indice_concentrador(
                    self.concentradores@, nombre@) == Some(i as int),
                None => spec_indice_concentrador(self.concentradores@, nombre@) is None
                    && forall|i: int| 0 <= i < self.concentradores@.len() ==> (
                    #[trigger] self.concentradores@[i]).nombre@ != nombre@,
            },
    {
        let mut i: usize = 0;
        while i < self.concentradores.len()
            invariant
                i <= self.concentradores@.len(),
                forall|j: int| 0 <= j < i ==> (#[trigger] self.concentradores@[j]).nombre@
                    != nombre@,
            decreases self.concentradores@.len() - i,
        {
            if self.concentradores[i].nombre.eq(nombre) {
                proof {
                    lemma_indice_concentrador(self.concentradores@, nombre@, i as int);
                }
                return Some(i);
            }
            i = i + 1;
        }
        proof {
            lemma_indice_concentrador_none(self.concentradores@, nombre@);
        }
        None
    }

    /// The index of a coaxial segment by name.
    pub fn indice_coaxial(&self, nombre: &String) -> (r: Option<usize>)
        ensures
            match r {
                Some(i) => i < self.coaxiales@.len() && self.coaxiales@[i as int].nombre@
                    == nombre@ && spec_indice_coaxial(self.coaxiales@, nombre@) == Some(i as int),
                None => spec_indice_coaxial(self.coaxiales@, nombre@) is None && forall|i: int|
                    0 <= i < self.coaxiales@.len() ==> (#[trigger] self.coaxiales@[i]).nombre@
                    != nombre@,
            },
    {
        let mut i: usize = 0;
        while i < self.coaxiales.len()
            invariant
                i <= self.coaxiales@.len(),
                forall|j: int| 0 <= j < i ==> (#[trigger] self.coaxiales@[j]).nombre@ != nombre@,
            decreases self.coaxiales@.len() - i,
        {
            if self.coaxiales[i].nombre.eq(nombre) {
                proof {
                    lemma_indice_coaxial(self.coaxiales@, nombre@, i as int);
                }
                return Some(i);
            }
            i = i + 1;
        }
        proof {
            lemma_indice_coaxial_none(self.coaxiales@, nombre@);
        }
        None
    }

    /// The statements of a registered named block, as a fresh copy with the
    /// registered shapes.
    fn buscar_modulo(&self, nombre: &String) -> (r: Option<Vec<Statement>>)
        ensures
            r is None ==> forall|i: int| 0 <= i < self.modulos@.len() ==> (
                #[trigger] self.modulos@[i]).0@ != nombre@,
            r matches Some(stmts) ==> exists|i: int|
                0 <= i < self.modulos@.len() && (#[trigger] self.modulos@[i]).0@ == nombre@
                    && crate::ast::vista_stmts(stmts@) == crate::ast::vista_stmts(
                    self.modulos@[i].1@),
    {
        let mut i: usize = 0;
        while i < self.modulos.len()
            invariant
                i <= self.modulos@.len(),
                forall|j: int| 0 <= j < i ==> (#[trigger] self.modulos@[j]).0@ != nombre@,
            decreases self.modulos@.len() - i,
        {
            if self.modulos[i].0.eq(nombre) {
                return Some(clonar_stmts(&self.modulos[i].1));
            }
            i = i + 1;
        }
        None
    }
}

/// The interpreter: exclusive owner of its environment for one run.
#[derive(Debug)]
pub struct Interpreter {
    pub env: Environment,
}

/// How one statement relates the environment before it to the environment
/// after it, and whether it succeeds: the per-statement semantics that
/// `exec_statement` guarantees and `ejecucion_sentencias` folds over a
/// statement list. `a` is the environment before, `d` the one after, `ok`
/// whether the statement succeeded; on failure of a non-wiring statement the
/// environment is unchanged.
pub open spec fn relacion_sentencia(a: Environment, d: Environment, s: Statement, ok: bool) -> bool {
    &&& d.modulos == a.modulos
    &&& (!(s is Escribe || s is Si || s is LlamadaModulo) ==> d.output == a.output)
    &&& a.output@.is_prefix_of(d.output@)
    &&& (s matches Statement::Coloca { objeto, x, y, .. } ==> ({
        let rx = spec_eval_entero(a, x);
        let ry = spec_eval_entero(a, y);
        let im = spec_indice_maquina(a.maquinas@, objeto@);
        let ic = spec_indice_concentrador(a.concentradores@, objeto@);
        &&& (ok <==> rx is Some && ry is Some && (im is Some || ic is Some))
        &&& (!ok ==> d == a)
        &&& (ok && im is Some ==> d.maquinas@ == a.maquinas@.update(im->0, RuntimeMaquina {
                x: rx->0,
                y: ry->0,
                colocada: true,
                ..a.maquinas@[im->0]
            }) && d.concentradores == a.concentradores && d.coaxiales == a.coaxiales)
        &&& (ok && im is None ==> ic is Some && d.concentradores@.len()
            == a.concentradores@.len() && conc_colocado(d.concentradores@[ic->0],
            a.concentradores@[ic->0], rx->0, ry->0) && (forall|k: int|
            0 <= k < a.concentradores@.len() && k != ic->0 ==> d.concentradores@[k]
                == a.concentradores@[k]) && d.maquinas == a.maquinas && d.coaxiales
            == a.coaxiales)
    }))
    &&& (s matches Statement::ColocaCoaxial { coaxial, x, y, direccion, .. } ==> ({
        let rx = spec_eval_entero(a, x);
        let ry = spec_eval_entero(a, y);
        let icx = spec_indice_coaxial(a.coaxiales@, coaxial@);
        &&& (ok <==> rx is Some && ry is Some && icx is Some)
        &&& (!ok ==> d == a)
        &&& (ok ==> d.coaxiales@.len() == a.coaxiales@.len() && coax_colocado(d.coaxiales@[
            icx->0], a.coaxiales@[icx->0], rx->0, ry->0, spec_nombre_direccion(direccion)) && (
        forall|k: int|
            0 <= k < a.coaxiales@.len() && k != icx->0 ==> d.coaxiales@[k] == a.coaxiales@[k])
            && d.maquinas == a.maquinas && d.concentradores == a.concentradores)
    }))
    &&& (s matches Statement::ColocaCoaxialConcentrador { coaxial, concentrador, .. } ==> ({
        let ic = spec_indice_concentrador(a.concentradores@, concentrador@);
        let icx = spec_indice_coaxial(a.coaxiales@, coaxial@);
        let con_salida = ic is Some && a.concentradores@[ic->0].tiene_coaxial;
        &&& (ok <==> con_salida && icx is Some)
        &&& (!con_salida ==> d == a)
        &&& (con_salida ==> d.concentradores@.len() == a.concentradores@.len()
            && conc_con_coaxial(d.concentradores@[ic->0], a.concentradores@[ic->0], coaxial)
            && (forall|k: int|
            0 <= k < a.concentradores@.len() && k != ic->0 ==> d.concentradores@[k]
                == a.concentradores@[k]) && d.maquinas == a.maquinas && d.coaxiales
            == a.coaxiales)
    }))
    &&& (s matches Statement::UneMaquinaPuerto { maquina, concentrador, puerto, .. } ==> ({
        let rp = spec_eval_entero(a, puerto);
        let im = spec_indice_maquina(a.maquinas@, maquina@);
        let ic = spec_indice_concentrador(a.concentradores@, concentrador@);
        let libre = rp is Some && ic is Some && 1 <= rp->0 && rp->0 <= a.concentradores@[
            ic->0].puertos && !a.concentradores@[ic->0].puertos_ocupados@[rp->0 - 1];
        &&& (ok <==> rp is Some && im is Some && ic is Some && libre)
        &&& (!ok ==> d == a)
        &&& (ok ==> d.concentradores@.len() == a.concentradores@.len() && conc_con_puerto(
            d.concentradores@[ic->0], a.concentradores@[ic->0], rp->0 as int) && (forall|k: int|
            0 <= k < a.concentradores@.len() && k != ic->0 ==> d.concentradores@[k]
                == a.concentradores@[k]) && d.maquinas@ == a.maquinas@.update(im->0,
            RuntimeMaquina {
                conectada_a: Some(ConexionMaquina::Puerto {
                    concentrador: concentrador,
                    puerto: rp->0,
                }),
                ..a.maquinas@[im->0]
            }) && d.coaxiales == a.coaxiales)
    }))
    &&& (s matches Statement::AsignaPuerto { maquina, concentrador, .. } ==> ({
        let im = spec_indice_maquina(a.maquinas@, maquina@);
        let ic = spec_indice_concentrador(a.concentradores@, concentrador@);
        let hueco = if ic is Some {
            spec_primer_libre(a.concentradores@[ic->0].puertos_ocupados@)
        } else {
            None
        };
        &&& (ok <==> im is Some && ic is Some && hueco is Some)
        &&& (!ok ==> d == a)
        &&& (ok ==> d.concentradores@.len() == a.concentradores@.len() && conc_con_puerto(
            d.concentradores@[ic->0], a.concentradores@[ic->0], hueco->0 + 1) && (forall|k: int|
            0 <= k < a.concentradores@.len() && k != ic->0 ==> d.concentradores@[k]
                == a.concentradores@[k]) && d.maquinas@ == a.maquinas@.update(im->0,
            RuntimeMaquina {
                conectada_a: Some(ConexionMaquina::Puerto {
                    concentrador: concentrador,
                    puerto: (hueco->0 + 1) as i32,
                }),
                ..a.maquinas@[im->0]
            }) && d.coaxiales == a.coaxiales)
    }))
    &&& (s matches Statement::MaquinaCoaxial { maquina, coaxial, posicion, .. } ==> ({
        let rp = spec_eval_entero(a, posicion);
        let im = spec_indice_maquina(a.maquinas@, maquina@);
        let icx = spec_indice_coaxial(a.coaxiales@, coaxial@);
        &&& (ok <==> rp is Some && im is Some && icx is Some)
        &&& (!ok ==> d == a)
        &&& (ok ==> d.coaxiales@.len() == a.coaxiales@.len() && coax_con_maquina(d.coaxiales@[
            icx->0], a.coaxiales@[icx->0], maquina, rp->0) && (forall|k: int|
            0 <= k < a.coaxiales@.len() && k != icx->0 ==> d.coaxiales@[k] == a.coaxiales@[k])
            && d.maquinas@ == a.maquinas@.update(im->0, RuntimeMaquina {
                conectada_a: Some(ConexionMaquina::Coaxial {
                    coaxial: coaxial,
                    posicion: rp->0,
                }),
                ..a.maquinas@[im->0]
            }) && d.concentradores == a.concentradores)
    }))
    &&& (s matches Statement::AsignaMaquinaCoaxial { maquina, coaxial, .. } ==> ({
        let im = spec_indice_maquina(a.maquinas@, maquina@);
        let icx = spec_indice_coaxial(a.coaxiales@, coaxial@);
        let hay_sitio = icx is Some && exists|q: int|
            0 <= q <= a.coaxiales@[icx->0].longitud && #[trigger] (q % 3) == 0 && a.coaxiales@[
                icx->0].spec_lejos_de_todas(q);
        &&& (ok <==> im is Some && hay_sitio)
        &&& (!ok ==> d == a)
        &&& (ok ==> exists|p: i32|
            {
                &&& #[trigger] (p % 3) == 0
                &&& 0 <= p <= a.coaxiales@[icx->0].longitud
                &&& a.coaxiales@[icx->0].spec_lejos_de_todas(p as int)
                &&& forall|q: int| 0 <= q < p && #[trigger] (q % 3) == 0 ==> !a.coaxiales@[
                    icx->0].spec_lejos_de_todas(q)
                &&& d.coaxiales@.len() == a.coaxiales@.len()
                &&& coax_con_maquina(d.coaxiales@[icx->0], a.coaxiales@[icx->0], maquina, p)
                &&& (forall|k: int|
                    0 <= k < a.coaxiales@.len() && k != icx->0 ==> d.coaxiales@[k]
                        == a.coaxiales@[k])
                &&& d.maquinas@ == a.maquinas@.update(im->0, RuntimeMaquina {
                    conectada_a: Some(ConexionMaquina::Coaxial { coaxial: coaxial, posicion: p }),
                    ..a.maquinas@[im->0]
                })
                &&& d.concentradores == a.concentradores
            })
    }))
    &&& (s matches Statement::Escribe { contenido, .. } ==> ({
        let rv = spec_eval(a, contenido);
        &&& (ok <==> rv is Ok)
        &&& (!ok ==> d == a)
        &&& (ok ==> vistas_salida(d.output@) == vistas_salida(a.output@).push(spec_as_string(
            rv->Ok_0)) && d.maquinas == a.maquinas && d.concentradores == a.concentradores
            && d.coaxiales == a.coaxiales)
    }))
    &&& (s matches Statement::Si { condicion, .. } ==> ({
        let rc = spec_eval(a, condicion);
        let vb = match rc {
            Ok(v) => spec_as_bool(v),
            Err(_) => None,
        };
        vb is None ==> !ok && d == a
    }))
}

/// A statement list executed in order: each statement relates one
/// environment to the next until all succeed, or execution stops at the
/// first failing statement, whatever follows it.
pub open spec fn ejecucion_sentencias(
    a: Environment,
    d: Environment,
    ss: Seq<Statement>,
    ok: bool,
) -> bool
    decreases ss.len(),
{
    if ss.len() == 0 {
        ok && d == a
    } else {
        ||| (exists|m: Environment|
            #[trigger] relacion_sentencia(a, m, ss.first(), true) && ejecucion_sentencias(m, d,
                ss.drop_first(), ok))
        ||| (!ok && relacion_sentencia(a, d, ss.first(), false))
    }
}

/// A successful run extends by one more successful statement.
proof fn lemma_ejecucion_empuja(
    a: Environment,
    m: Environment,
    d: Environment,
    pre: Seq<Statement>,
    s: Statement,
)
    requires
        ejecucion_sentencias(a, m, pre, true),
        relacion_sentencia(m, d, s, true),
    ensures
        ejecucion_sentencias(a, d, pre.push(s), true),
    decreases pre.len(),
{
    if pre.len() == 0 {
        assert(m == a);
        assert(pre.push(s).first() == s);
        assert(pre.push(s).drop_first() =~= Seq::<Statement>::empty());
        assert(ejecucion_sentencias(d, d, pre.push(s).drop_first(), true));
    } else {
        let m1 = choose|m1: Environment|
            #[trigger] relacion_sentencia(a, m1, pre.first(), true) && ejecucion_sentencias(m1,
                m, pre.drop_first(), true);
        lemma_ejecucion_empuja(m1, m, d, pre.drop_first(), s);
        assert(pre.push(s).first() == pre.first());
        assert(pre.push(s).drop_first() =~= pre.drop_first().push(s));
    }
}

/// A successful run followed by a failing statement is a failing run of any
/// list that continues past the failure.
proof fn lemma_ejecucion_falla(
    a: Environment,
    m: Environment,
    d: Environment,
    pre: Seq<Statement>,
    s: Statement,
    resto: Seq<Statement>,
)
    requires
        ejecucion_sentencias(a, m, pre, true),
        relacion_sentencia(m, d, s, false),
    ensures
        ejecucion_sentencias(a, d, pre + seq![s] + resto, false),
    decreases pre.len(),
{
    if pre.len() == 0 {
        assert(m == a);
        assert((pre + seq![s] + resto).first() == s);
    } else {
        let m1 = choose|m1: Environment|
            #[trigger] relacion_sentencia(a, m1, pre.first(), true) && ejecucion_sentencias(m1,
                m, pre.drop_first(), true);
        lemma_ejecucion_falla(m1, m, d, pre.drop_first(), s, resto);
        assert((pre + seq![s] + resto).first() == pre.first());
        assert((pre + seq![s] + resto).drop_first() =~= pre.drop_first() + seq![s] + resto);
    }
}

impl Interpreter {
    /// Builds the runtime environment from the validated symbol table.
    pub fn new(symbol_table: &SymbolTable) -> (r: Interpreter)
        requires
            symbol_table.wf(),
        ensures
            r.env.wf(),
            r.env.maquinas@.len() == symbol_table.maquinas@.len(),
            r.env.concentradores@.len() == symbol_table.concentradores@.len(),
            r.env.coaxiales@.len() == symbol_table.coaxiales@.len(),
            forall|i: int| 0 <= i < symbol_table.maquinas@.len() ==> #[trigger] r.env.maquinas@[i]
                == (RuntimeMaquina {
                    nombre: symbol_table.maquinas@[i].nombre,
                    x: 0,
                    y: 0,
                    colocada: false,
                    conectada_a: None,
                }),
            forall|i: int| 0 <= i < symbol_table.concentradores@.len() ==> ({
                let nuevo = #[trigger] r.env.concentradores@[i];
                let sym = symbol_table.concentradores@[i];
                &&& nuevo.nombre == sym.nombre
                &&& nuevo.puertos == sym.puertos
                &&& nuevo.tiene_coaxial == sym.tiene_coaxial
                &&& nuevo.x == 0 && nuevo.y == 0
                &&& nuevo.colocado == false
                &&& nuevo.disponibles == sym.puertos
                &&& nuevo.coaxial_asignado is None
                &&& nuevo.puertos_ocupados@.len() == sym.puertos
                &&& forall|w: int| 0 <= w < nuevo.puertos_ocupados@.len() ==> !(
                    #[trigger] nuevo.puertos_ocupados@[w])
            }),
            forall|i: int| 0 <= i < symbol_table.coaxiales@.len() ==> ({
                let nuevo = #[trigger] r.env.coaxiales@[i];
                let sym = symbol_table.coaxiales@[i];
                &&& nuevo.nombre == sym.nombre
                &&& nuevo.longitud == sym.longitud
                &&& nuevo.x == 0 && nuevo.y == 0
                &&& nuevo.direccion@ == Seq::<char>::empty()
                &&& nuevo.colocado == false
                &&& nuevo.maquinas@.len() == 0
                &&& nuevo.completo == false
            }),
            r.env.modulos@.len() == 0,
            r.env.output@.len() == 0,
    {
        let mut env = Environment::new();
        let ghost antes = env;
        env.inicializar_desde_simbolos(symbol_table);
        proof {
            assert(antes.maquinas@.len() == 0);
            assert(antes.concentradores@.len() == 0);
            assert(antes.coaxiales@.len() == 0);
            assert forall|i: int| 0 <= i < symbol_table.maquinas@.len() implies #[trigger] env
                .maquinas@[i] == (RuntimeMaquina {
                nombre: symbol_table.maquinas@[i].nombre,
                x: 0,
                y: 0,
                colocada: false,
                conectada_a: None,
            }) by {
                assert(env.maquinas@[antes.maquinas@.len() + i] == (RuntimeMaquina {
                    nombre: symbol_table.maquinas@[i].nombre,
                    x: 0,
                    y: 0,
                    colocada: false,
                    conectada_a: None,
                }));
            }
            assert forall|i: int| 0 <= i < symbol_table.concentradores@.len() implies ({
                let nuevo = #[trigger] env.concentradores@[i];
                let sym = symbol_table.concentradores@[i];
                &&& nuevo.nombre == sym.nombre
                &&& nuevo.puertos == sym.puertos
                &&& nuevo.tiene_coaxial == sym.tiene_coaxial
                &&& nuevo.x == 0 && nuevo.y == 0
                &&& nuevo.colocado == false
                &&& nuevo.disponibles == sym.puertos
                &&& nuevo.coaxial_asignado is None
                &&& nuevo.puertos_ocupados@.len() == sym.puertos
                &&& forall|w: int| 0 <= w < nuevo.puertos_ocupados@.len() ==> !(
                    #[trigger] nuevo.puertos_ocupados@[w])
            }) by {
                let testigo = env.concentradores@[antes.concentradores@.len() + i];
                assert(testigo == env.concentradores@[i]);
            }
            assert forall|i: int| 0 <= i < symbol_table.coaxiales@.len() implies ({
                let nuevo = #[trigger] env.coaxiales@[i];
                let sym = symbol_table.coaxiales@[i];
                &&& nuevo.nombre == sym.nombre
                &&& nuevo.longitud == sym.longitud
                &&& nuevo.x == 0 && nuevo.y == 0
                &&& nuevo.direccion@ == Seq::<char>::empty()
                &&& nuevo.colocado == false
                &&& nuevo.maquinas@.len() == 0
                &&& nuevo.completo == false
            }) by {
                let testigo = env.coaxiales@[antes.coaxiales@.len() + i];
                assert(testigo == env.coaxiales@[i]);
            }
        }
        Interpreter { env }
    }

    /// Runs the program: registers every named block, then executes the
    /// top-level statements in order. The first runtime error aborts the
    /// rest and is returned.
    pub fn ejecutar(&mut self, program: &Program) -> (r: Result<(), String>)
        requires
            old(self).env.wf(),
        ensures
            final(self).env.wf(),
            final(self).env.modulos@.len() == old(self).env.modulos@.len()
                + program.modulos@.len(),
            forall|i: int| 0 <= i < old(self).env.modulos@.len() ==> final(self).env.modulos@[i]
                == old(self).env.modulos@[i],
            forall|i: int| 0 <= i < program.modulos@.len() ==> {
                let registrado = #[trigger] final(self).env.modulos@[old(
                    self).env.modulos@.len() + i];
                &&& registrado.0@ == program.modulos@[i].nombre@
                &&& vista_stmts(registrado.1@) == vista_stmts(program.modulos@[i].sentencias@)
            },
            program.sentencias@.len() == 0 ==> r is Ok,
            old(self).env.output@.is_prefix_of(final(self).env.output@),
            r is Ok ==> exists|e0: Environment|
                {
                    &&& e0.maquinas == old(self).env.maquinas
                    &&& e0.concentradores == old(self).env.concentradores
                    &&& e0.coaxiales == old(self).env.coaxiales
                    &&& e0.output == old(self).env.output
                    &&& e0.modulos == final(self).env.modulos
                    &&& #[trigger] ejecucion_sentencias(e0, final(self).env,
                        program.sentencias@, true)
                },
            r is Err ==> exists|e0: Environment|
                {
                    &&& e0.maquinas == old(self).env.maquinas
                    &&& e0.concentradores == old(self).env.concentradores
                    &&& e0.coaxiales == old(self).env.coaxiales
                    &&& e0.output == old(self).env.output
                    &&& e0.modulos == final(self).env.modulos
                    &&& #[trigger] ejecucion_sentencias(e0, final(self).env,
                        program.sentencias@, false)
                },
    {
        let mut i: usize = 0;
        while i < program.modulos.len()
            invariant
                self.env.wf(),
                i <= program.modulos@.len(),
                self.env.modulos@.len() == old(self).env.modulos@.len() + i,
                forall|j: int| 0 <= j < old(self).env.modulos@.len() ==> self.env.modulos@[j]
                    == old(self).env.modulos@[j],
                forall|j: int| 0 <= j < i ==> {
                    let registrado = #[trigger] self.env.modulos@[old(self).env.modulos@.len()
                        + j];
                    &&& registrado.0@ == program.modulos@[j].nombre@
                    &&& vista_stmts(registrado.1@) == vista_stmts(
                        program.modulos@[j].sentencias@)
                },
                self.env.output == old(self).env.output,
                self.env.maquinas == old(self).env.maquinas,
                self.env.concentradores == old(self).env.concentradores,
                self.env.coaxiales == old(self).env.coaxiales,
            decreases program.modulos@.len() - i,
        {
            let m = &program.modulos[i];
            self.env.modulos.push((m.nombre.clone(), clonar_stmts(&m.sentencias)));
            i = i + 1;
        }
        let ghost e0 = self.env;
        proof {
            assert(program.sentencias@.subrange(0, 0) =~= Seq::<Statement>::empty());
        }
        let mut j: usize = 0;
        while j < program.sentencias.len()
            invariant
                self.env.wf(),
                self.env.modulos@.len() == old(self).env.modulos@.len()
                    + program.modulos@.len(),
                forall|k: int| 0 <= k < old(self).env.modulos@.len() ==> self.env.modulos@[k]
                    == old(self).env.modulos@[k],
                forall|k: int| 0 <= k < program.modulos@.len() ==> {
                    let registrado = #[trigger] self.env.modulos@[old(self).env.modulos@.len()
                        + k];
                    &&& registrado.0@ == program.modulos@[k].nombre@
                    &&& vista_stmts(registrado.1@) == vista_stmts(
                        program.modulos@[k].sentencias@)
                },
                old(self).env.output@.is_prefix_of(self.env.output@),
                j <= program.sentencias@.len(),
                e0.maquinas == old(self).env.maquinas,
                e0.concentradores == old(self).env.concentradores,
                e0.coaxiales == old(self).env.coaxiales,
                e0.output == old(self).env.output,
                self.env.modulos == e0.modulos,
                ejecucion_sentencias(e0, self.env, program.sentencias@.subrange(0, j as int),
                    true),
            decreases program.sentencias@.len() - j,
        {
            proof {
                lemma_altura_elemento(program.sentencias@, j as int);
            }
            let ghost previo = self.env;
            match self.exec_statement(&program.sentencias[j], PROFUNDIDAD_MAXIMA) {
                Ok(()) => {
                    proof {
                        lemma_ejecucion_empuja(e0, previo, self.env,
                            program.sentencias@.subrange(0, j as int),
                            program.sentencias@[j as int]);
                        assert(program.sentencias@.subrange(0, j as int).push(
                            program.sentencias@[j as int]) =~= program.sentencias@.subrange(0,
                            j + 1 as int));
                    }
                }
                Err(e) => {
                    proof {
                        lemma_ejecucion_falla(e0, previo, self.env,
                            program.sentencias@.subrange(0, j as int),
                            program.sentencias@[j as int], program.sentencias@.subrange(
                            j + 1 as int, program.sentencias@.len() as int));
                        assert(program.sentencias@.subrange(0, j as int) + seq![
                            program.sentencias@[j as int],
                        ] + program.sentencias@.subrange(j + 1 as int,
                            program.sentencias@.len() as int) =~= program.sentencias@);
                        assert(ejecucion_sentencias(e0, self.env, program.sentencias@, false));
                        assert(exists|ex: Environment|
                            {
                                &&& ex.maquinas == old(self).env.maquinas
                                &&& ex.concentradores == old(self).env.concentradores
                                &&& ex.coaxiales == old(self).env.coaxiales
                                &&& ex.output == old(self).env.output
                                &&& ex.modulos == self.env.modulos
                                &&& #[trigger] ejecucion_sentencias(ex, self.env,
                                    program.sentencias@, false)
                            });
                    }
                    return Err(e);
                }
            }
            j = j + 1;
        }
        proof {
            assert(program.sentencias@.subrange(0, program.sentencias@.len() as int)
                =~= program.sentencias@);
            assert(ejecucion_sentencias(e0, self.env, program.sentencias@, true));
            assert(exists|ex: Environment|
                {
                    &&& ex.maquinas == old(self).env.maquinas
                    &&& ex.concentradores == old(self).env.concentradores
                    &&& ex.coaxiales == old(self).env.coaxiales
                    &&& ex.output == old(self).env.output
                    &&& ex.modulos == self.env.modulos
                    &&& #[trigger] ejecucion_sentencias(ex, self.env, program.sentencias@,
                        true)
                });
        }
        Ok(())
    }

    /// Evaluates an expression to a value, or reports why it has none.
    /// Literals evaluate to themselves; a bare identifier of a network
    /// object has no scalar value.
    pub fn eval_expression(&self, expr: &Expr) -> (r: Result<Value, String>)
        requires
            self.env.wf(),
        ensures
            r is Ok <==> spec_eval(self.env, *expr) is Ok,
            r matches Ok(v) ==> spec_eval(self.env, *expr) == Ok::<Value, ()>(v),
            expr is Relacional || expr is Logico || expr is Not ==> (r matches Ok(v) ==> v
                is Bool),
        decreases *expr, 0int,
    {
        proof {
            lemma_eval_def(self.env, *expr);
        }
        match expr {
            Expr::Numero(n) => Ok(Value::Int(*n)),
            Expr::Cadena(s) => Ok(Value::Cadena(s.clone())),
            Expr::Identificador(nombre) => Err(String::from_str(
                "No se puede evaluar el identificador '").concat(nombre.as_str()).concat(
                "' como valor")),
            Expr::AccesoCampo { objeto, campo } => self.eval_campo_acceso(objeto, campo),
            Expr::AccesoArreglo { objeto, indice } => self.eval_arreglo_acceso(objeto, indice),
            Expr::Relacional { izq, op, der } => {
                let val_izq = match self.eval_expression(izq) {
                    Ok(v) => v,
                    Err(e) => {
                        return Err(e);
                    }
                };
                let val_der = match self.eval_expression(der) {
                    Ok(v) => v,
                    Err(e) => {
                        return Err(e);
                    }
                };
                eval_relacional(&val_izq, op, &val_der)
            }
            Expr::Logico { izq, op, der } => {
                let val_izq = match self.eval_expression(izq) {
                    Ok(v) => v,
                    Err(e) => {
                        return Err(e);
                    }
                };
                let val_der = match self.eval_expression(der) {
                    Ok(v) => v,
                    Err(e) => {
                        return Err(e);
                    }
                };
                eval_logico(&val_izq, op, &val_der)
            }
            Expr::Not(inner) => {
                let val = match self.eval_expression(inner) {
                    Ok(v) => v,
                    Err(e) => {
                        return Err(e);
                    }
                };
                match val.as_bool() {
                    Some(b) => Ok(Value::Bool(!b)),
                    None => Err(String::from_str("No se puede aplicar NOT a este valor")),
                }
            }
        }
    }

    /// The value of a field access: the fixed field vocabulary of
    /// concentrators (`puertos`, `disponibles`, `presente`, `coaxial`) and
    /// coaxial segments (`longitud`, `completo`, `num`, `presente`).
    fn eval_campo_acceso(&self, objeto: &String, campo: &String) -> (r: Result<Value, String>)
        requires
            self.env.wf(),
        ensures
            r is Ok <==> spec_eval_campo(self.env, objeto@, campo@) is Ok,
            r matches Ok(v) ==> spec_eval_campo(self.env, objeto@, campo@) == Ok::<Value, ()>(v),
    {
        match self.env.indice_concentrador(objeto) {
            Some(i) => {
                let conc = &self.env.concentradores[i];
                if crate::texto::str_eq(campo, "puertos") {
                    return Ok(Value::Int(conc.puertos));
                }
                if crate::texto::str_eq(campo, "disponibles") {
                    return Ok(Value::Int(conc.disponibles));
                }
                if crate::texto::str_eq(campo, "presente") {
                    return Ok(Value::Bool(conc.colocado));
                }
                if crate::texto::str_eq(campo, "coaxial") {
                    return Ok(Value::Int(
                        if conc.tiene_coaxial {
                            1
                        } else {
                            0
                        },
                    ));
                }
                return Err(String::from_str("Campo '").concat(campo.as_str()).concat(
                    "' no válido para concentrador"));
            }
            None => {}
        }
        match self.env.indice_coaxial(objeto) {
            Some(i) => {
                let coax = &self.env.coaxiales[i];
                if crate::texto::str_eq(campo, "longitud") {
                    return Ok(Value::Int(coax.longitud));
                }
                if crate::texto::str_eq(campo, "completo") {
                    return Ok(Value::Bool(coax.completo));
                }
                if crate::texto::str_eq(campo, "num") {
                    return Ok(Value::Int(coax.num_maquinas()));
                }
                if crate::texto::str_eq(campo, "presente") {
                    return Ok(Value::Bool(coax.colocado));
                }
                return Err(String::from_str("Campo '").concat(campo.as_str()).concat(
                    "' no válido para coaxial"));
            }
            None => {}
        }
        Err(String::from_str("Objeto '").concat(objeto.as_str()).concat("' no encontrado"))
    }

    /// The value of an indexed access `concentrador.p[i]`: whether port `i`
    /// is occupied.
    fn eval_arreglo_acceso(&self, objeto: &String, indice: &Expr) -> (r: Result<Value, String>)
        requires
            self.env.wf(),
        ensures
            ({
                let ri = spec_eval(self.env, *indice);
                match ri {
                    Err(_) => r is Err,
                    Ok(v) => match spec_as_int(v) {
                        None => r is Err,
                        Some(idx) => (r is Ok <==> spec_eval_arreglo(self.env, objeto@, idx)
                            is Ok) && (r matches Ok(w) ==> spec_eval_arreglo(self.env, objeto@,
                            idx) == Ok::<Value, ()>(w)),
                    },
                }
            }),
        decreases *indice, 1int,
    {
        let idx_val = match self.eval_expression(indice) {
            Ok(v) => v,
            Err(e) => {
                return Err(e);
            }
        };
        let idx = match idx_val.as_int() {
            Some(n) => n,
            None => {
                return Err(String::from_str("El índice debe ser entero"));
            }
        };
        let partes = crate::texto::dividir(&crate::texto::chars_de(objeto.as_str()), '.');
        if partes.len() == 2 && crate::texto::es_cadena(&partes[1], "p") {
            let base = crate::texto::cadena_de(&partes[0]);
            match self.env.indice_concentrador(&base) {
                Some(i) => {
                    let conc = &self.env.concentradores[i];
                    if idx > 0 && idx <= conc.puertos {
                        proof {
                            assert(self.env.concentradores@[i as int].wf());
                        }
                        let ocupado = conc.puertos_ocupados[(idx - 1) as usize];
                        return Ok(Value::Bool(ocupado));
                    } else {
                        return Err(String::from_str("Índice ").concat(i32_a_cadena(
                            idx).as_str()).concat(" fuera de rango para el concentrador '").concat(
                            base.as_str()).concat("'"));
                    }
                }
                None => {}
            }
        }
        Err(String::from_str("Acceso a arreglo inválido: '").concat(objeto.as_str()).concat("'"))
    }

    /// Executes every statement of a block in order: the block relates the
    /// environments by the statement fold.
    fn exec_bloque(&mut self, stmts: &Vec<Statement>, fuel: u64) -> (r: Result<(), String>)
        requires
            old(self).env.wf(),
        ensures
            final(self).env.wf(),
            final(self).env.modulos == old(self).env.modulos,
            old(self).env.output@.is_prefix_of(final(self).env.output@),
            r is Ok ==> ejecucion_sentencias(old(self).env, final(self).env, stmts@, true),
            r is Err ==> ejecucion_sentencias(old(self).env, final(self).env, stmts@, false),
        decreases fuel, altura_stmts(stmts@), 1nat,
    {
        proof {
            assert(stmts@.subrange(0, 0) =~= Seq::<Statement>::empty());
        }
        let mut i: usize = 0;
        while i < stmts.len()
            invariant
                self.env.wf(),
                self.env.modulos == old(self).env.modulos,
                old(self).env.output@.is_prefix_of(self.env.output@),
                i <= stmts@.len(),
                ejecucion_sentencias(old(self).env, self.env, stmts@.subrange(0, i as int),
                    true),
            decreases stmts@.len() - i,
        {
            proof {
                lemma_altura_elemento(stmts@, i as int);
            }
            let ghost previo = self.env;
            match self.exec_statement(&stmts[i], fuel) {
                Ok(()) => {
                    proof {
                        lemma_ejecucion_empuja(old(self).env, previo, self.env, stmts@.subrange(
                            0, i as int), stmts@[i as int]);
                        assert(stmts@.subrange(0, i as int).push(stmts@[i as int])
                            =~= stmts@.subrange(0, i + 1 as int));
                    }
                }
                Err(e) => {
                    proof {
                        lemma_ejecucion_falla(old(self).env, previo, self.env, stmts@.subrange(0,
                            i as int), stmts@[i as int], stmts@.subrange(i + 1 as int,
                            stmts@.len() as int));
                        assert(stmts@.subrange(0, i as int) + seq![stmts@[i as int]]
                            + stmts@.subrange(i + 1 as int, stmts@.len() as int) =~= stmts@);
                    }
                    return Err(e);
                }
            }
            i = i + 1;
        }
        proof {
            assert(stmts@.subrange(0, stmts@.len() as int) =~= stmts@);
        }
        Ok(())
    }

    /// Executes one statement, as the statement semantics prescribe;
    /// a failing statement reports its runtime error and changes carry over
    /// only up to the failure.
    #[verifier::rlimit(100)]
    #[verifier::spinoff_prover]
    fn exec_statement(&mut self, stmt: &Statement, fuel: u64) -> (r: Result<(), String>)
        requires
            old(self).env.wf(),
        ensures
            final(self).env.wf(),
            final(self).env.modulos == old(self).env.modulos,
            !(stmt is Escribe || stmt is Si || stmt is LlamadaModulo) ==> final(self).env.output
                == old(self).env.output,
            old(self).env.output@.is_prefix_of(final(self).env.output@),
            relacion_sentencia(old(self).env, final(self).env, *stmt, r is Ok),
            (*stmt) matches Statement::Coloca { objeto, x, y, .. } ==> ({
                let rx = spec_eval_entero(old(self).env, x);
                let ry = spec_eval_entero(old(self).env, y);
                let im = spec_indice_maquina(old(self).env.maquinas@, objeto@);
                let ic = spec_indice_concentrador(old(self).env.concentradores@, objeto@);
                &&& (r is Ok <==> rx is Some && ry is Some && (im is Some || ic is Some))
                &&& (r is Err ==> final(self).env == old(self).env)
                &&& (r is Ok && im is Some ==> final(self).env.maquinas@ == old(
                    self).env.maquinas@.update(im->0, RuntimeMaquina {
                        x: rx->0,
                        y: ry->0,
                        colocada: true,
                        ..old(self).env.maquinas@[im->0]
                    }) && final(self).env.concentradores == old(self).env.concentradores && final(
                    self).env.coaxiales == old(self).env.coaxiales)
                &&& (r is Ok && im is None ==> ic is Some && final(
                    self).env.concentradores@.len() == old(self).env.concentradores@.len()
                    && conc_colocado(final(self).env.concentradores@[ic->0], old(
                    self).env.concentradores@[ic->0], rx->0, ry->0) && (forall|k: int|
                    0 <= k < old(self).env.concentradores@.len() && k != ic->0 ==> final(
                        self).env.concentradores@[k] == old(self).env.concentradores@[k]) && final(
                    self).env.maquinas == old(self).env.maquinas && final(self).env.coaxiales
                    == old(self).env.coaxiales)
            }),
            (*stmt) matches Statement::ColocaCoaxial { coaxial, x, y, direccion, .. } ==> ({
                let rx = spec_eval_entero(old(self).env, x);
                let ry = spec_eval_entero(old(self).env, y);
                let icx = spec_indice_coaxial(old(self).env.coaxiales@, coaxial@);
                &&& (r is Ok <==> rx is Some && ry is Some && icx is Some)
                &&& (r is Err ==> final(self).env == old(self).env)
                &&& (r is Ok ==> final(self).env.coaxiales@.len() == old(
                    self).env.coaxiales@.len() && coax_colocado(final(self).env.coaxiales@[
                    icx->0], old(self).env.coaxiales@[icx->0], rx->0, ry->0,
                    spec_nombre_direccion(direccion)) && (forall|k: int|
                    0 <= k < old(self).env.coaxiales@.len() && k != icx->0 ==> final(
                        self).env.coaxiales@[k] == old(self).env.coaxiales@[k]) && final(
                    self).env.maquinas == old(self).env.maquinas && final(self).env.concentradores
                    == old(self).env.concentradores)
            }),
            (*stmt) matches Statement::ColocaCoaxialConcentrador { coaxial, concentrador, .. }
                ==> ({
                let ic = spec_indice_concentrador(old(self).env.concentradores@, concentrador@);
                let icx = spec_indice_coaxial(old(self).env.coaxiales@, coaxial@);
                let con_salida = ic is Some && old(self).env.concentradores@[ic->0].tiene_coaxial;
                &&& (r is Ok <==> con_salida && icx is Some)
                &&& (!con_salida ==> final(self).env == old(self).env)
                &&& (con_salida ==> final(self).env.concentradores@.len() == old(
                    self).env.concentradores@.len() && conc_con_coaxial(final(
                    self).env.concentradores@[ic->0], old(self).env.concentradores@[ic->0],
                    coaxial) && (forall|k: int|
                    0 <= k < old(self).env.concentradores@.len() && k != ic->0 ==> final(
                        self).env.concentradores@[k] == old(self).env.concentradores@[k]) && final(
                    self).env.maquinas == old(self).env.maquinas && final(self).env.coaxiales
                    == old(self).env.coaxiales)
            }),
            (*stmt) matches Statement::UneMaquinaPuerto { maquina, concentrador, puerto, .. }
                ==> ({
                let rp = spec_eval_entero(old(self).env, puerto);
                let im = spec_indice_maquina(old(self).env.maquinas@, maquina@);
                let ic = spec_indice_concentrador(old(self).env.concentradores@, concentrador@);
                let libre = rp is Some && ic is Some && 1 <= rp->0 && rp->0 <= old(
                    self).env.concentradores@[ic->0].puertos && !old(self).env.concentradores@[
                    ic->0].puertos_ocupados@[rp->0 - 1];
                &&& (r is Ok <==> rp is Some && im is Some && ic is Some && libre)
                &&& (r is Err ==> final(self).env == old(self).env)
                &&& (rp is Some && im is Some && ic is Some && !libre ==> (r matches Err(m)
                    && m@ == "No se pudo asignar el puerto "@ + spec_decimal_i32(rp->0 as int)
                    + " del concentrador '"@ + concentrador@ + "'"@))
                &&& (r is Ok ==> final(self).env.concentradores@.len() == old(
                    self).env.concentradores@.len() && conc_con_puerto(final(
                    self).env.concentradores@[ic->0], old(self).env.concentradores@[ic->0],
                    rp->0 as int) && (forall|k: int|
                    0 <= k < old(self).env.concentradores@.len() && k != ic->0 ==> final(
                        self).env.concentradores@[k] == old(self).env.concentradores@[k]) && final(
                    self).env.maquinas@ == old(self).env.maquinas@.update(im->0, RuntimeMaquina {
                        conectada_a: Some(ConexionMaquina::Puerto {
                            concentrador: concentrador,
                            puerto: rp->0,
                        }),
                        ..old(self).env.maquinas@[im->0]
                    }) && final(self).env.coaxiales == old(self).env.coaxiales)
            }),
            (*stmt) matches Statement::AsignaPuerto { maquina, concentrador, .. } ==> ({
                let im = spec_indice_maquina(old(self).env.maquinas@, maquina@);
                let ic = spec_indice_concentrador(old(self).env.concentradores@, concentrador@);
                let hueco = if ic is Some {
                    spec_primer_libre(old(self).env.concentradores@[ic->0].puertos_ocupados@)
                } else {
                    None
                };
                &&& (r is Ok <==> im is Some && ic is Some && hueco is Some)
                &&& (r is Err ==> final(self).env == old(self).env)
                &&& (r is Ok ==> final(self).env.concentradores@.len() == old(
                    self).env.concentradores@.len() && conc_con_puerto(final(
                    self).env.concentradores@[ic->0], old(self).env.concentradores@[ic->0],
                    hueco->0 + 1) && (forall|k: int|
                    0 <= k < old(self).env.concentradores@.len() && k != ic->0 ==> final(
                        self).env.concentradores@[k] == old(self).env.concentradores@[k]) && final(
                    self).env.maquinas@ == old(self).env.maquinas@.update(im->0, RuntimeMaquina {
                        conectada_a: Some(ConexionMaquina::Puerto {
                            concentrador: concentrador,
                            puerto: (hueco->0 + 1) as i32,
                        }),
                        ..old(self).env.maquinas@[im->0]
                    }) && final(self).env.coaxiales == old(self).env.coaxiales)
            }),
            (*stmt) matches Statement::MaquinaCoaxial { maquina, coaxial, posicion, .. } ==> ({
                let rp = spec_eval_entero(old(self).env, posicion);
                let im = spec_indice_maquina(old(self).env.maquinas@, maquina@);
                let icx = spec_indice_coaxial(old(self).env.coaxiales@, coaxial@);
                &&& (r is Ok <==> rp is Some && im is Some && icx is Some)
                &&& (r is Err ==> final(self).env == old(self).env)
                &&& (r is Ok ==> final(self).env.coaxiales@.len() == old(
                    self).env.coaxiales@.len() && coax_con_maquina(final(self).env.coaxiales@[
                    icx->0], old(self).env.coaxiales@[icx->0], maquina, rp->0) && (forall|k: int|
                    0 <= k < old(self).env.coaxiales@.len() && k != icx->0 ==> final(
                        self).env.coaxiales@[k] == old(self).env.coaxiales@[k]) && final(
                    self).env.maquinas@ == old(self).env.maquinas@.update(im->0, RuntimeMaquina {
                        conectada_a: Some(ConexionMaquina::Coaxial {
                            coaxial: coaxial,
                            posicion: rp->0,
                        }),
                        ..old(self).env.maquinas@[im->0]
                    }) && final(self).env.concentradores == old(self).env.concentradores)
            }),
            (*stmt) matches Statement::AsignaMaquinaCoaxial { maquina, coaxial, .. } ==> ({
                let im = spec_indice_maquina(old(self).env.maquinas@, maquina@);
                let icx = spec_indice_coaxial(old(self).env.coaxiales@, coaxial@);
                let hay_sitio = icx is Some && exists|q: int|
                    0 <= q <= old(self).env.coaxiales@[icx->0].longitud && #[trigger] (q % 3) == 0
                        && old(self).env.coaxiales@[icx->0].spec_lejos_de_todas(q);
                &&& (r is Ok <==> im is Some && hay_sitio)
                &&& (r is Err ==> final(self).env == old(self).env)
                &&& (im is Some && icx is Some && !hay_sitio ==> (r matches Err(m) && m@
                    == "No hay posiciones disponibles en el coaxial '"@ + coaxial@ + "'"@))
                &&& (r is Ok ==> exists|p: i32|
                    {
                        &&& #[trigger] (p % 3) == 0
                        &&& 0 <= p <= old(self).env.coaxiales@[icx->0].longitud
                        &&& old(self).env.coaxiales@[icx->0].spec_lejos_de_todas(p as int)
                        &&& forall|q: int| 0 <= q < p && #[trigger] (q % 3) == 0 ==> !old(
                            self).env.coaxiales@[icx->0].spec_lejos_de_todas(q)
                        &&& final(self).env.coaxiales@.len() == old(self).env.coaxiales@.len()
                        &&& coax_con_maquina(final(self).env.coaxiales@[icx->0], old(
                            self).env.coaxiales@[icx->0], maquina, p)
                        &&& (forall|k: int|
                            0 <= k < old(self).env.coaxiales@.len() && k != icx->0 ==> final(
                                self).env.coaxiales@[k] == old(self).env.coaxiales@[k])
                        &&& final(self).env.maquinas@ == old(self).env.maquinas@.update(im->0,
                            RuntimeMaquina {
                                conectada_a: Some(ConexionMaquina::Coaxial {
                                    coaxial: coaxial,
                                    posicion: p,
                                }),
                                ..old(self).env.maquinas@[im->0]
                            })
                        &&& final(self).env.concentradores == old(self).env.concentradores
                    })
            }),
            (*stmt) matches Statement::Escribe { contenido, .. } ==> ({
                let rv = spec_eval(old(self).env, contenido);
                &&& (r is Ok <==> rv is Ok)
                &&& (r is Err ==> final(self).env == old(self).env)
                &&& (r is Ok ==> vistas_salida(final(self).env.output@) == vistas_salida(old(
                    self).env.output@).push(spec_as_string(rv->Ok_0)) && final(self).env.maquinas
                    == old(self).env.maquinas && final(self).env.concentradores == old(
                    self).env.concentradores && final(self).env.coaxiales == old(
                    self).env.coaxiales)
            }),
            (*stmt) matches Statement::Si { condicion, entonces, sino, .. } ==> ({
                let rc = spec_eval(old(self).env, condicion);
                let vb = match rc {
                    Ok(v) => spec_as_bool(v),
                    Err(_) => None,
                };
                &&& (vb is None ==> r is Err && final(self).env == old(self).env)
                &&& (vb == Some(true) ==> (r is Ok ==> ejecucion_sentencias(old(self).env, final(
                    self).env, entonces@, true)) && (r is Err ==> ejecucion_sentencias(old(
                    self).env, final(self).env, entonces@, false)))
                &&& (vb == Some(false) && sino is None ==> r is Ok && final(self).env == old(
                    self).env)
                &&& (vb == Some(false) && sino is Some ==> ({
                    let ss = sino->0;
                    &&& (r is Ok ==> ejecucion_sentencias(old(self).env, final(self).env, ss@,
                        true))
                    &&& (r is Err ==> ejecucion_sentencias(old(self).env, final(self).env, ss@,
                        false))
                }))
            }),
            (*stmt) matches Statement::LlamadaModulo { nombre, .. } ==> ({
                &&& (fuel == 0 ==> r is Err && final(self).env == old(self).env)
                &&& (fuel > 0 && (forall|i: int|
                    0 <= i < old(self).env.modulos@.len() ==> (
                    #[trigger] old(self).env.modulos@[i]).0@ != nombre@) ==> r is Err && final(
                    self).env == old(self).env)
                &&& (r is Ok ==> exists|copia: Seq<Statement>, i: int|
                    {
                        &&& 0 <= i < old(self).env.modulos@.len()
                        &&& (#[trigger] old(self).env.modulos@[i]).0@ == nombre@
                        &&& vista_stmts(copia) == vista_stmts(old(self).env.modulos@[i].1@)
                        &&& #[trigger] ejecucion_sentencias(old(self).env, final(self).env,
                            copia, true)
                    })
            }),
        decreases fuel, altura_stmt(*stmt), 0nat,
    {
        match stmt {
            Statement::Coloca { objeto, x, y, .. } => {
                let x_val = match self.evaluar_entero(x, "La coordenada X debe ser un entero") {
                    Ok(v) => v,
                    Err(e) => {
                        return Err(e);
                    }
                };
                let y_val = match self.evaluar_entero(y, "La coordenada Y debe ser un entero") {
                    Ok(v) => v,
                    Err(e) => {
                        return Err(e);
                    }
                };
                match self.env.indice_maquina(objeto) {
                    Some(i) => {
                        let mut m = self.env.maquinas[i].copiar();
                        m.x = x_val;
                        m.y = y_val;
                        m.colocada = true;
                        self.env.maquinas[i] = m;
                        return Ok(());
                    }
                    None => {}
                }
                match self.env.indice_concentrador(objeto) {
                    Some(i) => {
                        let mut c = self.env.concentradores[i].copiar();
                        c.x = x_val;
                        c.y = y_val;
                        c.colocado = true;
                        proof {
                            assert(self.env.concentradores@[i as int].wf());
                            assert(c.wf());
                        }
                        self.env.concentradores[i] = c;
                        return Ok(());
                    }
                    None => {}
                }
                Err(String::from_str("Objeto '").concat(objeto.as_str()).concat(
                    "' no encontrado"))
            }
            Statement::ColocaCoaxial { coaxial, x, y, direccion, .. } => {
                let x_val = match self.evaluar_entero(x, "La coordenada X debe ser un entero") {
                    Ok(v) => v,
                    Err(e) => {
                        return Err(e);
                    }
                };
                let y_val = match self.evaluar_entero(y, "La coordenada Y debe ser un entero") {
                    Ok(v) => v,
                    Err(e) => {
                        return Err(e);
                    }
                };
                match self.env.indice_coaxial(coaxial) {
                    Some(i) => {
                        let mut c = self.env.coaxiales[i].copiar();
                        c.x = x_val;
                        c.y = y_val;
                        c.direccion = match direccion {
                            crate::ast::Direccion::Arriba => String::from_str("Arriba"),
                            crate::ast::Direccion::Abajo => String::from_str("Abajo"),
                            crate::ast::Direccion::Izquierda => String::from_str("Izquierda"),
                            crate::ast::Direccion::Derecha => String::from_str("Derecha"),
                        };
                        c.colocado = true;
                        self.env.coaxiales[i] = c;
                        Ok(())
                    }
                    None => Err(String::from_str("Coaxial '").concat(coaxial.as_str()).concat(
                        "' no encontrado")),
                }
            }
            Statement::ColocaCoaxialConcentrador { coaxial, concentrador, .. } => {
                match self.env.indice_concentrador(concentrador) {
                    Some(i) => {
                        if !self.env.concentradores[i].tiene_coaxial {
                            return Err(String::from_str("El concentrador '").concat(
                                concentrador.as_str()).concat("' no tiene salida para coaxial"));
                        }
                        let mut c = self.env.concentradores[i].copiar();
                        c.coaxial_asignado = Some(coaxial.clone());
                        proof {
                            assert(self.env.concentradores@[i as int].wf());
                            assert(c.wf());
                        }
                        self.env.concentradores[i] = c;
                    }
                    None => {
                        return Err(String::from_str("Concentrador '").concat(
                            concentrador.as_str()).concat("' no encontrado"));
                    }
                }
                match self.env.indice_coaxial(coaxial) {
                    Some(_) => Ok(()),
                    None => Err(String::from_str("Coaxial '").concat(coaxial.as_str()).concat(
                        "' no encontrado")),
                }
            }
            Statement::UneMaquinaPuerto { maquina, concentrador, puerto, .. } => {
                let puerto_num = match self.evaluar_entero(puerto,
                    "El puerto debe ser un entero") {
                    Ok(v) => v,
                    Err(e) => {
                        return Err(e);
                    }
                };
                let k = match self.env.indice_maquina(maquina) {
                    Some(k) => k,
                    None => {
                        return Err(String::from_str("Máquina '").concat(maquina.as_str()).concat(
                            "' no encontrada"));
                    }
                };
                match self.env.indice_concentrador(concentrador) {
                    Some(i) => {
                        let mut c = self.env.concentradores[i].copiar();
                        proof {
                            assert(self.env.concentradores@[i as int].wf());
                            assert(c.wf());
                        }
                        let indice_puerto: usize = if puerto_num >= 1 {
                            puerto_num as usize
                        } else {
                            0
                        };
                        if c.asignar_puerto(indice_puerto) {
                            self.env.concentradores[i] = c;
                            let mut m = self.env.maquinas[k].copiar();
                            m.conectada_a = Some(ConexionMaquina::Puerto {
                                concentrador: concentrador.clone(),
                                puerto: puerto_num,
                            });
                            self.env.maquinas[k] = m;
                            proof {
                                assert(conc_con_puerto(self.env.concentradores@[i as int], old(
                                    self).env.concentradores@[i as int], puerto_num as int));
                                assert(self.env.maquinas@ =~= old(self).env.maquinas@.update(
                                    k as int, RuntimeMaquina {
                                        conectada_a: Some(ConexionMaquina::Puerto {
                                            concentrador: *concentrador,
                                            puerto: puerto_num,
                                        }),
                                        ..old(self).env.maquinas@[k as int]
                                    }));
                            }
                            Ok(())
                        } else {
                            let m = String::from_str("No se pudo asignar el puerto ").concat(
                                i32_a_cadena(puerto_num).as_str()).concat(
                                " del concentrador '").concat(concentrador.as_str()).concat("'");
                            proof {
                                assert(m@ =~= "No se pudo asignar el puerto "@ + spec_decimal_i32(
                                    puerto_num as int) + " del concentrador '"@ + concentrador@
                                    + "'"@);
                            }
                            Err(m)
                        }
                    }
                    None => Err(String::from_str("Concentrador '").concat(
                        concentrador.as_str()).concat("' no encontrado")),
                }
            }
            Statement::AsignaPuerto { maquina, concentrador, .. } => {
                let k = match self.env.indice_maquina(maquina) {
                    Some(k) => k,
                    None => {
                        return Err(String::from_str("Máquina '").concat(maquina.as_str()).concat(
                            "' no encontrada"));
                    }
                };
                match self.env.indice_concentrador(concentrador) {
                    Some(i) => {
                        let mut c = self.env.concentradores[i].copiar();
                        proof {
                            assert(self.env.concentradores@[i as int].wf());
                            assert(c.wf());
                        }
                        let ghost puertos_antes = c.puertos_ocupados@;
                        match c.primer_puerto_disponible() {
                            Some(puerto) => {
                                proof {
                                    assert(spec_primer_libre(puertos_antes) == Some(
                                        puerto - 1));
                                    assert(puertos_antes == old(self).env.concentradores@[
                                        i as int].puertos_ocupados@);
                                }
                                let _tomado = c.asignar_puerto(puerto);
                                self.env.concentradores[i] = c;
                                let puerto_i32: i32 = if puerto <= 2147483647 {
                                    puerto as i32
                                } else {
                                    i32::MAX
                                };
                                let mut m = self.env.maquinas[k].copiar();
                                m.conectada_a = Some(ConexionMaquina::Puerto {
                                    concentrador: concentrador.clone(),
                                    puerto: puerto_i32,
                                });
                                self.env.maquinas[k] = m;
                                proof {
                                    assert(conc_con_puerto(self.env.concentradores@[i as int],
                                        old(self).env.concentradores@[i as int], puerto as int));
                                    assert(puerto_i32 == puerto as i32);
                                    assert(self.env.maquinas@ =~= old(
                                        self).env.maquinas@.update(k as int, RuntimeMaquina {
                                            conectada_a: Some(ConexionMaquina::Puerto {
                                                concentrador: *concentrador,
                                                puerto: puerto_i32,
                                            }),
                                            ..old(self).env.maquinas@[k as int]
                                        }));
                                }
                                Ok(())
                            }
                            None => Err(String::from_str(
                                "No hay puertos disponibles en el concentrador '").concat(
                                concentrador.as_str()).concat("'")),
                        }
                    }
                    None => Err(String::from_str("Concentrador '").concat(
                        concentrador.as_str()).concat("' no encontrado")),
                }
            }
            Statement::MaquinaCoaxial { maquina, coaxial, posicion, .. } => {
                let pos_val = match self.evaluar_entero(posicion,
                    "La posición debe ser un entero") {
                    Ok(v) => v,
                    Err(e) => {
                        return Err(e);
                    }
                };
                let k = match self.env.indice_maquina(maquina) {
                    Some(k) => k,
                    None => {
                        return Err(String::from_str("Máquina '").concat(maquina.as_str()).concat(
                            "' no encontrada"));
                    }
                };
                match self.env.indice_coaxial(coaxial) {
                    Some(i) => {
                        let mut c = self.env.coaxiales[i].copiar();
                        c.agregar_maquina(maquina.clone(), pos_val);
                        self.env.coaxiales[i] = c;
                        let mut m = self.env.maquinas[k].copiar();
                        m.conectada_a = Some(ConexionMaquina::Coaxial {
                            coaxial: coaxial.clone(),
                            posicion: pos_val,
                        });
                        self.env.maquinas[k] = m;
                        proof {
                            assert(coax_con_maquina(self.env.coaxiales@[i as int], old(
                                self).env.coaxiales@[i as int], *maquina, pos_val));
                            assert(self.env.maquinas@ =~= old(self).env.maquinas@.update(
                                k as int, RuntimeMaquina {
                                    conectada_a: Some(ConexionMaquina::Coaxial {
                                        coaxial: *coaxial,
                                        posicion: pos_val,
                                    }),
                                    ..old(self).env.maquinas@[k as int]
                                }));
                        }
                        Ok(())
                    }
                    None => Err(String::from_str("Coaxial '").concat(coaxial.as_str()).concat(
                        "' no encontrado")),
                }
            }
            Statement::AsignaMaquinaCoaxial { maquina, coaxial, .. } => {
                let k = match self.env.indice_maquina(maquina) {
                    Some(k) => k,
                    None => {
                        return Err(String::from_str("Máquina '").concat(maquina.as_str()).concat(
                            "' no encontrada"));
                    }
                };
                match self.env.indice_coaxial(coaxial) {
                    Some(i) => {
                        match self.env.coaxiales[i].buscar_posicion_disponible() {
                            Some(posicion) => {
                                let mut c = self.env.coaxiales[i].copiar();
                                c.agregar_maquina(maquina.clone(), posicion);
                                self.env.coaxiales[i] = c;
                                let mut m = self.env.maquinas[k].copiar();
                                m.conectada_a = Some(ConexionMaquina::Coaxial {
                                    coaxial: coaxial.clone(),
                                    posicion,
                                });
                                self.env.maquinas[k] = m;
                                proof {
                                    assert(coax_con_maquina(self.env.coaxiales@[i as int], old(
                                        self).env.coaxiales@[i as int], *maquina, posicion));
                                    assert(self.env.maquinas@ =~= old(
                                        self).env.maquinas@.update(k as int, RuntimeMaquina {
                                            conectada_a: Some(ConexionMaquina::Coaxial {
                                                coaxial: *coaxial,
                                                posicion: posicion,
                                            }),
                                            ..old(self).env.maquinas@[k as int]
                                        }));
                                }
                                Ok(())
                            }
                            None => {
                                let m = String::from_str(
                                    "No hay posiciones disponibles en el coaxial '").concat(
                                    coaxial.as_str()).concat("'");
                                proof {
                                    assert(m@ =~= "No hay posiciones disponibles en el coaxial '"@
                                        + coaxial@ + "'"@);
                                }
                                Err(m)
                            }
                        }
                    }
                    None => Err(String::from_str("Coaxial '").concat(coaxial.as_str()).concat(
                        "' no encontrado")),
                }
            }
            Statement::Escribe { contenido, .. } => {
                let valor = match self.eval_expression(contenido) {
                    Ok(v) => v,
                    Err(e) => {
                        return Err(e);
                    }
                };
                self.env.escribir(valor.as_string());
                proof {
                    let rv = spec_eval(old(self).env, *contenido);
                    assert(vistas_salida(self.env.output@) =~= vistas_salida(old(
                        self).env.output@).push(spec_as_string(rv->Ok_0)));
                    assert(relacion_sentencia(old(self).env, self.env, *stmt, true));
                }
                Ok(())
            }
            Statement::Si { condicion, entonces, sino, .. } => {
                proof {
                    lemma_altura_si(*stmt);
                }
                let cond_val = match self.eval_expression(condicion) {
                    Ok(v) => v,
                    Err(e) => {
                        return Err(e);
                    }
                };
                let es_verdadero = match cond_val.as_bool() {
                    Some(b) => b,
                    None => {
                        return Err(String::from_str("La condición debe ser booleana"));
                    }
                };
                if es_verdadero {
                    self.exec_bloque(entonces, fuel)
                } else {
                    match sino {
                        Some(sino_stmts) => self.exec_bloque(sino_stmts, fuel),
                        None => Ok(()),
                    }
                }
            }
            Statement::LlamadaModulo { nombre, .. } => {
                if fuel == 0 {
                    return Err(String::from_str(
                        "Llamadas a módulos anidadas demasiado profundas"));
                }
                match self.env.buscar_modulo(nombre) {
                    Some(stmts) => {
                        let r2 = self.exec_bloque(&stmts, fuel - 1);
                        proof {
                            if r2 is Ok {
                                let i = choose|i: int|
                                    0 <= i < old(self).env.modulos@.len() && (#[trigger] old(
                                    self).env.modulos@[i]).0@ == nombre@ && vista_stmts(stmts@)
                                        == vista_stmts(old(self).env.modulos@[i].1@);
                                assert(ejecucion_sentencias(old(self).env, self.env, stmts@,
                                    true));
                            }
                        }
                        r2
                    },
                    None => Err(String::from_str("Módulo '").concat(nombre.as_str()).concat(
                        "' no encontrado")),
                }
            }
        }
    }

    /// Evaluates an expression and reads it as an integer, with the given
    /// message when it has no integer reading.
    fn evaluar_entero(&self, expr: &Expr, mensaje: &str) -> (r: Result<i32, String>)
        requires
            self.env.wf(),
        ensures
            r is Ok <==> spec_eval_entero(self.env, *expr) is Some,
            r matches Ok(n) ==> spec_eval_entero(self.env, *expr) == Some(n),
        decreases *expr, 1int,
    {
        let v = match self.eval_expression(expr) {
            Ok(v) => v,
            Err(e) => {
                return Err(e);
            }
        };
        match v.as_int() {
            Some(n) => Ok(n),
            None => Err(String::from_str(mensaje)),
        }
    }
}

/// Compares two values: as integers when both have an integer reading,
/// otherwise by textual equality, which only supports equality tests.
pub fn eval_relacional(izq: &Value, op: &OpRelacional, der: &Value) -> (r: Result<Value, String>)
    ensures
        r is Ok <==> spec_relacional(*izq, *op, *der) is Ok,
        r matches Ok(v) ==> spec_relacional(*izq, *op, *der) == Ok::<Value, ()>(v),
        match (spec_as_int(*izq), spec_as_int(*der)) {
            (Some(a), Some(b)) => r == Ok::<Value, String>(Value::Bool(
                match op {
                    OpRelacional::Igual => a == b,
                    OpRelacional::Diferente => a != b,
                    OpRelacional::Menor => a < b,
                    OpRelacional::Mayor => a > b,
                    OpRelacional::MenorIgual => a <= b,
                    OpRelacional::MayorIgual => a >= b,
                },
            )),
            _ => match op {
                OpRelacional::Igual => r == Ok::<Value, String>(Value::Bool(spec_as_string(*izq)
                    == spec_as_string(*der))),
                OpRelacional::Diferente => r == Ok::<Value, String>(Value::Bool(spec_as_string(
                    *izq) != spec_as_string(*der))),
                _ => r is Err,
            },
        },
{
    let a_opt = izq.as_int();
    let b_opt = der.as_int();
    match (a_opt, b_opt) {
        (Some(a), Some(b)) => {
            let resultado = match op {
                OpRelacional::Igual => a == b,
                OpRelacional::Diferente => a != b,
                OpRelacional::Menor => a < b,
                OpRelacional::Mayor => a > b,
                OpRelacional::MenorIgual => a <= b,
                OpRelacional::MayorIgual => a >= b,
            };
            Ok(Value::Bool(resultado))
        }
        _ => {
            match op {
                OpRelacional::Igual => Ok(Value::Bool(izq.as_string().eq(&der.as_string()))),
                OpRelacional::Diferente => Ok(Value::Bool(!izq.as_string().eq(&der.as_string()))),
                _ => Err(String::from_str(
                    "No se pueden comparar estos valores con un orden")),
            }
        }
    }
}

/// Conjunction and disjunction over boolean-coercible values.
pub fn eval_logico(izq: &Value, op: &OpLogico, der: &Value) -> (r: Result<Value, String>)
    ensures
        r is Ok <==> spec_logico(*izq, *op, *der) is Ok,
        r matches Ok(v) ==> spec_logico(*izq, *op, *der) == Ok::<Value, ()>(v),
        match (spec_as_bool(*izq), spec_as_bool(*der)) {
            (Some(a), Some(b)) => r == Ok::<Value, String>(Value::Bool(
                match op {
                    OpLogico::And => a && b,
                    OpLogico::Or => a || b,
                },
            )),
            _ => r is Err,
        },
{
    let a = match izq.as_bool() {
        Some(a) => a,
        None => {
            return Err(String::from_str("Operando izquierdo no es booleano"));
        }
    };
    let b = match der.as_bool() {
        Some(b) => b,
        None => {
            return Err(String::from_str("Operando derecho no es booleano"));
        }
    };
    let resultado = match op {
        OpLogico::And => a && b,
        OpLogico::Or => a || b,
    };
    Ok(Value::Bool(resultado))
}

} // verus!
