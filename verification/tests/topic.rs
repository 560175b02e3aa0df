use rpc::log_level::ParseError;
use rpc::routing::Route;
use rpc::topic::{BindingKey, KeyError, LocLogLevel, Location, LogLevel, RoutingKey};

#[test]
fn topic_level_names() {
    assert_eq!(LogLevel::from_str("debug"), Ok(LogLevel::Debug));
    assert_eq!(LogLevel::from_str("info"), Ok(LogLevel::Info));
    assert_eq!(LogLevel::from_str("warn"), Ok(LogLevel::Warn));
    assert_eq!(LogLevel::from_str("warning"), Ok(LogLevel::Warn));
    assert_eq!(LogLevel::from_str("error"), Ok(LogLevel::Error));
    assert_eq!(LogLevel::from_str("err"), Ok(LogLevel::Error));
    assert_eq!(LogLevel::from_str("Warn"), Err(ParseError::VariantNotFound));
    assert_eq!(LogLevel::from_str("*"), Err(ParseError::VariantNotFound));
    assert_eq!(LogLevel::Debug.as_ref(), "debug");
    assert_eq!(LogLevel::Info.as_ref(), "info");
    assert_eq!(LogLevel::Warn.as_ref(), "warning");
    assert_eq!(LogLevel::Error.as_ref(), "error");
}

#[test]
fn topic_location_names() {
    for (long, short, location) in [
        ("playa", "dd", Location::Playa),
        ("vancouver", "bc", Location::Vancouver),
        ("portland", "pd", Location::Portland),
        ("montreal", "mt", Location::Montreal),
    ] {
        assert_eq!(Location::from_str(long), Ok(location));
        assert_eq!(Location::from_str(short), Ok(location));
        assert_eq!(location.as_ref(), long);
        assert_eq!(long.parse::<Location>(), Ok(location));
    }
    assert_eq!(Location::from_str("paris"), Err(ParseError::VariantNotFound));
    assert_eq!(Location::from_str(""), Err(ParseError::VariantNotFound));
}

#[test]
fn route_names() {
    assert_eq!(Route::from_str("debug"), Ok(Route::Debug));
    assert_eq!(Route::from_str("info"), Ok(Route::Info));
    assert_eq!(Route::from_str("warn"), Ok(Route::Warn));
    assert_eq!(Route::from_str("warning"), Ok(Route::Warn));
    assert_eq!(Route::from_str("error"), Ok(Route::Error));
    assert_eq!(Route::from_str("err"), Ok(Route::Error));
    assert_eq!(Route::from_str("fatal"), Err(ParseError::VariantNotFound));
    assert_eq!("err".parse::<Route>(), Ok(Route::Error));
    assert_eq!(Route::Debug.as_ref(), "debug");
    assert_eq!(Route::Info.as_ref(), "info");
    assert_eq!(Route::Warn.as_ref(), "warning");
    assert_eq!(Route::Error.as_ref(), "error");
    assert!(Route::Debug < Route::Error);
}

#[test]
fn binding_key_parses() {
    let pair = BindingKey::Pair { location: Location::Playa, level: LogLevel::Debug };
    assert_eq!(BindingKey::from_str("playa.debug"), Ok(pair));
    assert_eq!(BindingKey::from_str("dd.debug"), Ok(pair));
    assert_eq!(BindingKey::from_str("bc.*"), Ok(BindingKey::AnyLevel(Location::Vancouver)));
    assert_eq!(BindingKey::from_str("*.err"), Ok(BindingKey::AnyLoc(LogLevel::Error)));
    assert_eq!(BindingKey::from_str("*.*"), Ok(BindingKey::Any));
    assert_eq!(BindingKey::from_str("#"), Ok(BindingKey::Any));
    assert_eq!("#".parse::<BindingKey>(), Ok(BindingKey::Any));
}

#[test]
fn binding_key_rejects() {
    assert_eq!(BindingKey::from_str(""), Err(KeyError::MalformedInput));
    assert_eq!(BindingKey::from_str("*"), Err(KeyError::MalformedInput));
    assert_eq!(BindingKey::from_str("playa"), Err(KeyError::MalformedInput));
    assert_eq!(BindingKey::from_str("playa.debug.x"), Err(KeyError::MalformedInput));
    assert_eq!(BindingKey::from_str("a.b.c"), Err(KeyError::MalformedInput));
    assert_eq!(BindingKey::from_str(".."), Err(KeyError::MalformedInput));
    assert_eq!(BindingKey::from_str("#.debug"), Err(KeyError::MalformedLocation));
    assert_eq!(BindingKey::from_str("paris.debug"), Err(KeyError::MalformedLocation));
    assert_eq!(BindingKey::from_str("paris.nothing"), Err(KeyError::MalformedLocation));
    assert_eq!(BindingKey::from_str(".debug"), Err(KeyError::MalformedLocation));
    assert_eq!(BindingKey::from_str("."), Err(KeyError::MalformedLocation));
    assert_eq!(BindingKey::from_str("playa."), Err(KeyError::MalformedLevel));
    assert_eq!(BindingKey::from_str("playa.#"), Err(KeyError::MalformedLevel));
    assert_eq!(BindingKey::from_str("*.loud"), Err(KeyError::MalformedLevel));
    assert_eq!(BindingKey::from_str("*."), Err(KeyError::MalformedLevel));
    assert_eq!(BindingKey::from_str("caf\u{e9}.debug"), Err(KeyError::MalformedLocation));
    assert_eq!(BindingKey::from_bytes(&[0xff, b'.', 0xfe]), Err(KeyError::MalformedLocation));
}

#[test]
fn binding_key_text() {
    let pair = BindingKey::Pair { location: Location::Montreal, level: LogLevel::Warn };
    assert_eq!(pair.to_string(), "montreal.warning");
    assert_eq!(BindingKey::AnyLevel(Location::Portland).to_string(), "portland.*");
    assert_eq!(BindingKey::AnyLoc(LogLevel::Info).to_string(), "*.info");
    assert_eq!(BindingKey::Any.to_string(), "#");
}

#[test]
fn binding_key_text_round_trip() {
    let locations = [Location::Playa, Location::Vancouver, Location::Portland, Location::Montreal];
    let levels = [LogLevel::Debug, LogLevel::Info, LogLevel::Warn, LogLevel::Error];
    let mut keys = vec![BindingKey::Any];
    for location in locations {
        keys.push(BindingKey::AnyLevel(location));
        for level in levels {
            keys.push(BindingKey::Pair { location, level });
        }
    }
    for level in levels {
        keys.push(BindingKey::AnyLoc(level));
    }
    for key in keys {
        assert_eq!(BindingKey::from_str(&key.to_string()), Ok(key));
        let same = LocLogLevel::from_str(&key.to_string()).unwrap();
        assert_eq!(same.binding_key(), key);
        assert_eq!(same.to_string(), key.to_string());
        assert_eq!(same.is_specific(), key.is_specific());
    }
}

#[test]
fn binding_key_is_specific() {
    assert!(BindingKey::Pair { location: Location::Playa, level: LogLevel::Debug }.is_specific());
    assert!(!BindingKey::AnyLevel(Location::Playa).is_specific());
    assert!(!BindingKey::AnyLoc(LogLevel::Debug).is_specific());
    assert!(!BindingKey::Any.is_specific());
}

#[test]
fn loc_loglevel_parses_and_prints() {
    let pair = LocLogLevel::Pair { location: Location::Playa, level: LogLevel::Error };
    assert_eq!(LocLogLevel::from_str("playa.err"), Ok(pair));
    assert_eq!(pair.to_string(), "playa.error");
    assert!(pair.is_specific());
    assert_eq!(LocLogLevel::from_str("mt.*"), Ok(LocLogLevel::AnyLevel(Location::Montreal)));
    assert_eq!(LocLogLevel::from_str("*.warn"), Ok(LocLogLevel::AnyLoc(LogLevel::Warn)));
    assert_eq!(LocLogLevel::from_str("#"), Ok(LocLogLevel::Any));
    assert_eq!(LocLogLevel::from_str("*.*"), Ok(LocLogLevel::Any));
    assert!(!LocLogLevel::Any.is_specific());
    assert_eq!(LocLogLevel::Any.to_string(), "#");
    assert_eq!(LocLogLevel::from_str("a.b.c"), Err(KeyError::MalformedInput));
    assert_eq!(LocLogLevel::from_str("x.debug"), Err(KeyError::MalformedLocation));
    assert_eq!(LocLogLevel::from_str("playa.x"), Err(KeyError::MalformedLevel));
    assert_eq!("pd.info".parse::<LocLogLevel>(), Ok(LocLogLevel::Pair { location: Location::Portland, level: LogLevel::Info }));
}

#[test]
fn routing_key_parses() {
    let key = RoutingKey { location: Location::Vancouver, level: LogLevel::Info };
    assert_eq!(RoutingKey::from_str("vancouver.info"), Ok(key));
    assert_eq!(RoutingKey::from_str("bc.info"), Ok(key));
    assert_eq!("bc.info".parse::<RoutingKey>(), Ok(key));
    assert_eq!(key.to_string(), "vancouver.info");
    assert_eq!(RoutingKey::from_str(&key.to_string()), Ok(key));
}

#[test]
fn routing_key_rejects() {
    assert_eq!(RoutingKey::from_str(""), Err(KeyError::MalformedInput));
    assert_eq!(RoutingKey::from_str("#"), Err(KeyError::MalformedInput));
    assert_eq!(RoutingKey::from_str("playa"), Err(KeyError::MalformedInput));
    assert_eq!(RoutingKey::from_str("playa.debug.more"), Err(KeyError::MalformedInput));
    assert_eq!(RoutingKey::from_str("*.debug"), Err(KeyError::MalformedLocation));
    assert_eq!(RoutingKey::from_str("*.*"), Err(KeyError::MalformedLocation));
    assert_eq!(RoutingKey::from_str("playa.*"), Err(KeyError::MalformedLevel));
    assert_eq!(RoutingKey::from_str("playa."), Err(KeyError::MalformedLevel));
}

#[test]
fn routing_key_and_binding_key_convert() {
    let key = RoutingKey { location: Location::Playa, level: LogLevel::Debug };
    let binding = BindingKey::from(key);
    assert_eq!(binding, BindingKey::Pair { location: Location::Playa, level: LogLevel::Debug });
    assert_eq!(RoutingKey::try_from(binding), Ok(key));
    assert_eq!(RoutingKey::try_from(BindingKey::Any), Err(KeyError::NotSpecific));
    assert_eq!(RoutingKey::try_from(BindingKey::AnyLevel(Location::Playa)), Err(KeyError::NotSpecific));
    assert_eq!(RoutingKey::try_from(BindingKey::AnyLoc(LogLevel::Debug)), Err(KeyError::NotSpecific));
}
