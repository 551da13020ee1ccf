//! Scenario tests over the whole pipeline: tokenizing, the two parsing
//! passes, the semantic rules and the interpreter's network semantics.

use redes::ast::{
    CoaxialDecl, ConcentradorDecl, Definitions, Expr, Location, MaquinaDecl, Program, Statement,
};
use redes::interpreter::{Interpreter, RuntimeConcentrador};
use redes::lexer::Token;
use redes::lexer_bridge::tokenize_with_new_lexer;
use redes::lexer_new::automaton::Automaton;
use redes::lexer_new::scanner::Scanner;
use redes::lexer_new::token::TokenType;
use redes::parser::Parser;
use redes::parser_ll1::first_follow::NonTerminal;
use redes::parser_ll1::ll1_table::LL1Table;
use redes::parser_ll1::predictive::PredictiveParser;
use redes::semantic::{CoaxialSymbol, SemanticAnalyzer};

/// An automaton for the language surface these scenarios need: identifiers,
/// numbers, strings, delimiters, blanks and the reserved words.
fn automata_dsl() -> Automaton {
    let content = r#"
METADATA
name: RedesLexer
version: 1.0
initial_state: q0
END_METADATA

STATES
q0
q_id FINAL:IDENTIFIER
q_num FINAL:NUMBER
q_str
q_str_fin FINAL:STRING
q_ws FINAL:WHITESPACE
q_lparen FINAL:LPAREN
q_rparen FINAL:RPAREN
q_coma FINAL:COMMA
q_punto_coma FINAL:SEMICOLON
q_punto FINAL:DOT
END_STATES

TRANSITIONS
q0, [a-zA-Z_], q_id
q_id, [a-zA-Z0-9_], q_id
q0, [0-9], q_num
q_num, [0-9], q_num
q0, ", q_str
q_str, ", q_str_fin
q_str, ANY_EXCEPT_NEWLINE, q_str
q0, \s, q_ws
q0, \t, q_ws
q0, \n, q_ws
q_ws, \s, q_ws
q_ws, \t, q_ws
q_ws, \n, q_ws
q0, (, q_lparen
q0, ), q_rparen
q0, ,, q_coma
q0, ;, q_punto_coma
q0, ., q_punto
END_TRANSITIONS

KEYWORDS
programa, PROGRAMA
define, DEFINE
maquinas, MAQUINAS
inicio, INICIO
fin, FIN
coloca, COLOCA
escribe, ESCRIBE
END_KEYWORDS
"#;
    Automaton::parse(content).expect("the scenario automaton parses")
}

fn aqui() -> Location {
    Location { line: 1, column: 1, length: 1 }
}

/// Tokenizing the empty string succeeds and yields only the synthetic end
/// marker, which the bridge then drops.
#[test]
fn test_tokenizar_vacio() {
    let automaton = automata_dsl();
    let mut scanner = Scanner::new("", &automaton);
    let tokens = scanner.scan_all().unwrap();
    assert_eq!(tokens.len(), 1);
    assert_eq!(tokens[0].token_type, TokenType::Eof);
    assert_eq!(tokens[0].line, 1);
    assert_eq!(tokens[0].column, 1);

    let infos = tokenize_with_new_lexer(String::new(), &automaton).unwrap();
    assert_eq!(infos.len(), 0);
}

/// Maximal munch: a reserved word is one keyword token, and extending it by
/// one letter makes the whole run a single identifier.
#[test]
fn test_munch_maximo_palabra_reservada() {
    let automaton = automata_dsl();

    let mut scanner = Scanner::new("maquinas", &automaton);
    let token = scanner.scan_token().unwrap().unwrap();
    assert_eq!(token.token_type, TokenType::Maquinas);
    assert_eq!(token.lexeme, "maquinas");

    let mut scanner2 = Scanner::new("maquinasX", &automaton);
    let token2 = scanner2.scan_token().unwrap().unwrap();
    assert_eq!(token2.token_type, TokenType::Identifier);
    assert_eq!(token2.lexeme, "maquinasX");
}

/// Tokenizing the same text twice yields identical token sequences.
#[test]
fn test_tokenizar_dos_veces() {
    let automaton = automata_dsl();
    let fuente = "programa t; inicio coloca(A,1,2); fin .";
    let una = tokenize_with_new_lexer(fuente.to_string(), &automaton).unwrap();
    let otra = tokenize_with_new_lexer(fuente.to_string(), &automaton).unwrap();
    assert_eq!(una, otra);
}

/// The bridge takes literal payloads from the lexemes: numbers their value,
/// strings their contents without the quotes.
#[test]
fn test_puente_literales() {
    let automaton = automata_dsl();
    let infos = tokenize_with_new_lexer("escribe(\"hola\"); coloca(A,42,7);".to_string(),
        &automaton).unwrap();
    assert_eq!(infos[1].token, Token::ParenIzq);
    assert_eq!(infos[2].token, Token::Cadena("hola".to_string()));
    assert_eq!(infos[7].token, Token::Identificador("A".to_string()));
    assert_eq!(infos[8].token, Token::Coma);
    assert_eq!(infos[9].token, Token::Numero(42));
    assert_eq!(infos[11].token, Token::Numero(7));
}

/// The LL(1) table stores one production per exercised pair, and looking a
/// pair up twice gives the same production.
#[test]
fn test_tabla_sin_conflictos_en_uso() {
    let table = LL1Table::new();
    let casos = [
        (NonTerminal::Programa, Token::Programa, 1),
        (NonTerminal::Definiciones, Token::Define, 2),
        (NonTerminal::Definiciones, Token::Inicio, 3),
        (NonTerminal::Sentencia, Token::Coloca, 31),
        (NonTerminal::Sentencia, Token::Escribe, 38),
        (NonTerminal::Sentencia, Token::Identificador(String::new()), 40),
        (NonTerminal::ExpresionPrimaria, Token::Numero(0), 75),
        (NonTerminal::AccesoArreglo, Token::CorcheteIzq, 83),
    ];
    for (nt, token, esperado) in casos.iter() {
        let primera = table.get(*nt, token).expect("the pair is in the table").id;
        let segunda = table.get(*nt, token).expect("the pair is in the table").id;
        assert_eq!(primera, *esperado);
        assert_eq!(segunda, *esperado);
    }
}

fn tokens_programa_valido() -> Vec<redes::lexer::TokenInfo> {
    let automaton = automata_dsl();
    tokenize_with_new_lexer(
        "programa t; define maquinas A; inicio coloca(A,1,2); escribe(\"ok\"); fin .".to_string(),
        &automaton,
    ).unwrap()
}

/// A program the predictive pass accepts is also accepted by the
/// tree-building pass; one the predictive pass rejects never reaches it.
#[test]
fn test_pasada_uno_implica_pasada_dos() {
    let tokens = tokens_programa_valido();
    let mut validador = PredictiveParser::new(tokens.clone());
    assert!(validador.validate_syntax().is_ok());
    let mut constructor = Parser::new(tokens);
    assert!(constructor.parse().is_ok());

    // A broken program: the predictive pass rejects it up front.
    let automaton = automata_dsl();
    let rotos = tokenize_with_new_lexer("programa t inicio fin .".to_string(), &automaton)
        .unwrap();
    let mut validador_roto = PredictiveParser::new(rotos);
    assert!(validador_roto.validate_syntax().is_err());
    assert!(validador_roto.parse().is_err());
}

/// Assigning an already-occupied concentrator port fails deterministically
/// and leaves the free-port count untouched.
#[test]
fn test_puerto_ocupado_no_muta() {
    let mut hub = RuntimeConcentrador::new("Hub".to_string(), 4, false);
    assert!(hub.asignar_puerto(1));
    assert_eq!(hub.disponibles, 3);

    assert!(!hub.asignar_puerto(1));
    assert_eq!(hub.disponibles, 3);
    assert!(!hub.asignar_puerto(0));
    assert!(!hub.asignar_puerto(5));
    assert_eq!(hub.disponibles, 3);
}

/// The spacing discipline of one coaxial segment: admitted placements stay
/// within the cable and pairwise at least three meters apart.
#[test]
fn test_espaciado_coaxial() {
    let mut cable = CoaxialSymbol::new("Cable".to_string(), 10, aqui());
    assert!(cable.puede_agregar_maquina(0).is_ok());
    cable.agregar_maquina("A".to_string(), 0);

    assert!(cable.puede_agregar_maquina(2).is_err());
    assert!(cable.puede_agregar_maquina(-1).is_err());
    assert!(cable.puede_agregar_maquina(11).is_err());
    assert!(cable.puede_agregar_maquina(3).is_ok());
    cable.agregar_maquina("B".to_string(), 3);

    for i in 0..cable.posiciones.len() {
        let p = cable.posiciones[i];
        assert!(0 <= p && p <= cable.longitud);
        for j in 0..cable.posiciones.len() {
            if i != j {
                assert!((p - cable.posiciones[j]).abs() >= 3);
            }
        }
    }
}

/// Declaring a concentrator with six ports fails semantically with the port
/// message; declaring one with eight succeeds and starts with eight free
/// ports.
#[test]
fn test_puertos_invalidos_y_validos() {
    let programa_malo = Program {
        nombre: "t".to_string(),
        definiciones: Definitions {
            maquinas: vec![],
            concentradores: vec![ConcentradorDecl {
                nombre: "C6".to_string(),
                puertos: 6,
                tiene_coaxial: false,
                location: aqui(),
            }],
            coaxiales: vec![],
            location: aqui(),
        },
        modulos: vec![],
        sentencias: vec![],
        location: aqui(),
    };
    let mut analizador = SemanticAnalyzer::new();
    let errores = analizador.analyze(&programa_malo).unwrap_err();
    assert_eq!(errores.len(), 1);
    assert!(errores[0].message.contains("de puertos inv"));
    assert!(errores[0].message.contains("6"));

    let programa_bueno = Program {
        nombre: "t".to_string(),
        definiciones: Definitions {
            maquinas: vec![],
            concentradores: vec![ConcentradorDecl {
                nombre: "C8".to_string(),
                puertos: 8,
                tiene_coaxial: false,
                location: aqui(),
            }],
            coaxiales: vec![],
            location: aqui(),
        },
        modulos: vec![],
        sentencias: vec![],
        location: aqui(),
    };
    let mut analizador2 = SemanticAnalyzer::new();
    assert!(analizador2.analyze(&programa_bueno).is_ok());
    let simbolo = &analizador2.symbol_table.concentradores[0];
    assert_eq!(simbolo.puertos, 8);
    assert_eq!(simbolo.disponibles, 8);
    assert_eq!(simbolo.puertos_ocupados.len(), 8);
    assert!(simbolo.puertos_ocupados.iter().all(|o| !o));
}

/// The whole pipeline on one source text: tokenize, validate, build the
/// tree, analyze and execute; the output holds one line and the machine is
/// placed at (1, 2).
#[test]
fn test_programa_completo() {
    let automaton = automata_dsl();
    let fuente = "programa t; define maquinas A; inicio coloca(A,1,2); escribe(\"ok\"); fin .";
    let tokens = tokenize_with_new_lexer(fuente.to_string(), &automaton).unwrap();

    let mut parser = PredictiveParser::new(tokens);
    let programa = parser.parse().expect("the program parses");

    let mut analizador = SemanticAnalyzer::new();
    analizador.analyze(&programa).expect("the program is semantically sound");

    let mut interprete = Interpreter::new(&analizador.symbol_table);
    interprete.ejecutar(&programa).expect("the program runs");

    assert_eq!(interprete.env.output, vec!["ok".to_string()]);
    assert_eq!(interprete.env.obtener_output(), "ok");

    let maquina = &interprete.env.maquinas[0];
    assert_eq!(maquina.nombre, "A");
    assert!(maquina.colocada);
    assert_eq!(maquina.x, 1);
    assert_eq!(maquina.y, 2);
}

/// Wiring a machine to an already-taken port raises a runtime error naming
/// the hub and the port.
#[test]
fn test_puerto_tomado_es_error() {
    let programa = Program {
        nombre: "t".to_string(),
        definiciones: Definitions {
            maquinas: vec![
                MaquinaDecl { nombre: "A".to_string(), location: aqui() },
                MaquinaDecl { nombre: "B".to_string(), location: aqui() },
            ],
            concentradores: vec![ConcentradorDecl {
                nombre: "Hub".to_string(),
                puertos: 4,
                tiene_coaxial: false,
                location: aqui(),
            }],
            coaxiales: vec![],
            location: aqui(),
        },
        modulos: vec![],
        sentencias: vec![
            Statement::UneMaquinaPuerto {
                maquina: "A".to_string(),
                concentrador: "Hub".to_string(),
                puerto: Expr::Numero(1),
                location: aqui(),
            },
            Statement::UneMaquinaPuerto {
                maquina: "B".to_string(),
                concentrador: "Hub".to_string(),
                puerto: Expr::Numero(1),
                location: aqui(),
            },
        ],
        location: aqui(),
    };
    let mut analizador = SemanticAnalyzer::new();
    analizador.analyze(&programa).expect("the program is semantically sound");
    let mut interprete = Interpreter::new(&analizador.symbol_table);
    let error = interprete.ejecutar(&programa).unwrap_err();
    assert!(error.contains("puerto 1"));
    assert!(error.contains("Hub"));
}

/// Automatic coaxial placement walks in steps of three meters: after a
/// machine at 0, the next ones land at 3, 6 and 9, and a fifth finds no slot
/// on a ten-meter cable.
#[test]
fn test_asignacion_coaxial_por_pasos() {
    let nombres = ["A", "B", "C", "D", "E"];
    let mut sentencias = vec![Statement::MaquinaCoaxial {
        maquina: "A".to_string(),
        coaxial: "Cable".to_string(),
        posicion: Expr::Numero(0),
        location: aqui(),
    }];
    for nombre in ["B", "C", "D", "E"].iter() {
        sentencias.push(Statement::AsignaMaquinaCoaxial {
            maquina: nombre.to_string(),
            coaxial: "Cable".to_string(),
            location: aqui(),
        });
    }
    let programa = Program {
        nombre: "t".to_string(),
        definiciones: Definitions {
            maquinas: nombres.iter().map(|n| MaquinaDecl {
                nombre: n.to_string(),
                location: aqui(),
            }).collect(),
            concentradores: vec![],
            coaxiales: vec![CoaxialDecl {
                nombre: "Cable".to_string(),
                longitud: 10,
                location: aqui(),
            }],
            location: aqui(),
        },
        modulos: vec![],
        sentencias,
        location: aqui(),
    };
    let mut analizador = SemanticAnalyzer::new();
    analizador.analyze(&programa).expect("the program is semantically sound");
    let mut interprete = Interpreter::new(&analizador.symbol_table);
    let error = interprete.ejecutar(&programa).unwrap_err();
    assert!(error.contains("No hay posiciones disponibles"));

    let cable = &interprete.env.coaxiales[0];
    let esperadas = vec![
        ("A".to_string(), 0),
        ("B".to_string(), 3),
        ("C".to_string(), 6),
        ("D".to_string(), 9),
    ];
    assert_eq!(cable.maquinas, esperadas);
}

/// A conditional takes the branch its condition picks, and a named block
/// call runs the block inline.
#[test]
fn test_condicional_y_modulo() {
    let automaton = automata_dsl();
    // The scenario automaton has no comparison operators; drive the branch
    // with a numeric condition (non-zero is true).
    let fuente = "programa t; inicio escribe(\"antes\"); fin .";
    let tokens = tokenize_with_new_lexer(fuente.to_string(), &automaton).unwrap();
    let mut parser = PredictiveParser::new(tokens);
    let mut programa = parser.parse().expect("the program parses");

    programa.sentencias.push(Statement::Si {
        condicion: Expr::Numero(1),
        entonces: vec![Statement::Escribe { contenido: Expr::Cadena("sí".to_string()), location: aqui() }],
        sino: Some(vec![Statement::Escribe {
            contenido: Expr::Cadena("no".to_string()),
            location: aqui(),
        }]),
        location: aqui(),
    });
    programa.sentencias.push(Statement::Si {
        condicion: Expr::Numero(0),
        entonces: vec![Statement::Escribe { contenido: Expr::Cadena("sí".to_string()), location: aqui() }],
        sino: Some(vec![Statement::Escribe {
            contenido: Expr::Cadena("no".to_string()),
            location: aqui(),
        }]),
        location: aqui(),
    });

    let mut analizador = SemanticAnalyzer::new();
    analizador.analyze(&programa).expect("the program is semantically sound");
    let mut interprete = Interpreter::new(&analizador.symbol_table);
    interprete.ejecutar(&programa).expect("the program runs");
    assert_eq!(
        interprete.env.output,
        vec!["antes".to_string(), "sí".to_string(), "no".to_string()]
    );
}

/// A lexical error carries the exact position where the bad token began.
#[test]
fn test_posicion_de_error_lexico() {
    let automaton = automata_dsl();
    let mut scanner = Scanner::new("programa t;\n  @", &automaton);
    let mut ultimo = scanner.scan_token();
    while let Ok(Some(_)) = ultimo {
        ultimo = scanner.scan_token();
    }
    let error = ultimo.unwrap_err();
    assert_eq!(error.line, 2);
    assert_eq!(error.column, 3);
    assert!(error.message.contains("@"));
    assert_eq!(error.length, 1);
}

/// The joined output carries one line per write, newline-separated.
#[test]
fn test_salida_unida() {
    let automaton = automata_dsl();
    let fuente = "programa t; inicio escribe(\"uno\"); escribe(\"dos\"); escribe(3); fin .";
    let tokens = tokenize_with_new_lexer(fuente.to_string(), &automaton).unwrap();
    let mut parser = PredictiveParser::new(tokens);
    let programa = parser.parse().expect("the program parses");
    let mut analizador = SemanticAnalyzer::new();
    analizador.analyze(&programa).expect("the program is semantically sound");
    let mut interprete = Interpreter::new(&analizador.symbol_table);
    interprete.ejecutar(&programa).expect("the program runs");
    assert_eq!(interprete.env.obtener_output(), "uno\ndos\n3");
}

/// The stored grammar is the grammar: a production carries its own
/// left-hand non-terminal, and a looked-up production's left-hand side is
/// the non-terminal it was looked up under.
#[test]
fn test_producciones_lado_izquierdo() {
    let table = LL1Table::new();
    assert_eq!(table.productions.len(), 84);
    assert_eq!(table.productions[0].id, 1);
    assert_eq!(table.productions[0].lhs, NonTerminal::Programa);
    assert_eq!(table.productions[0].rhs.len(), 7);
    let casos = [
        (NonTerminal::Programa, Token::Programa),
        (NonTerminal::Sentencia, Token::Coloca),
        (NonTerminal::ExpresionPrimaria, Token::Numero(0)),
    ];
    for (nt, token) in casos.iter() {
        let produccion = table.get(*nt, token).expect("the pair is in the table");
        assert_eq!(produccion.lhs, *nt);
    }
}
