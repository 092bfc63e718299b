use spell_framework::{cast_spell_inner, cast_spells_round, SpellAssociatedNew, WidgetError};
use std::cell::Cell;
use std::rc::Rc;

struct Widget {
    calls: Rc<Cell<u32>>,
    fail: bool,
}

impl SpellAssociatedNew for Widget {
    fn on_call(&mut self) -> Result<(), WidgetError> {
        self.calls.set(self.calls.get() + 1);
        if self.fail {
            Err(WidgetError { message: "gone".to_string() })
        } else {
            Ok(())
        }
    }
}

#[test]
fn single_widget_dispatch() {
    let calls = Rc::new(Cell::new(0));
    assert!(cast_spell_inner(Widget { calls: calls.clone(), fail: false }).is_ok());
    assert_eq!(calls.get(), 1);
    let err = cast_spell_inner(Widget { calls: calls.clone(), fail: true }).unwrap_err();
    assert_eq!(err.message, "gone");
}

#[test]
fn round_stops_at_first_failure() {
    let a = Rc::new(Cell::new(0));
    let b = Rc::new(Cell::new(0));
    let c = Rc::new(Cell::new(0));
    let mut windows: Vec<Box<dyn SpellAssociatedNew>> = vec![
        Box::new(Widget { calls: a.clone(), fail: false }),
        Box::new(Widget { calls: b.clone(), fail: true }),
        Box::new(Widget { calls: c.clone(), fail: false }),
    ];
    assert!(cast_spells_round(&mut windows).is_err());
    assert_eq!((a.get(), b.get(), c.get()), (1, 1, 0));
    assert_eq!(windows.len(), 3);
}

#[test]
fn round_calls_every_widget() {
    let a = Rc::new(Cell::new(0));
    let b = Rc::new(Cell::new(0));
    let mut windows: Vec<Box<dyn SpellAssociatedNew>> = vec![
        Box::new(Widget { calls: a.clone(), fail: false }),
        Box::new(Widget { calls: b.clone(), fail: false }),
    ];
    assert!(cast_spells_round(&mut windows).is_ok());
    assert!(cast_spells_round(&mut windows).is_ok());
    assert_eq!((a.get(), b.get()), (2, 2));
}
