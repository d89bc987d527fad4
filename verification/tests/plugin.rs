use rust_sample::dec_u64;
use rust_sample::elapsed_report;
use rust_sample::init_plan;
use rust_sample::nick_name;
use rust_sample::nick_names;
use rust_sample::nick_report;
use rust_sample::respond;
use rust_sample::Event;
use rust_sample::GENERATED_NICK_COUNT;

#[test]
fn decimal_rendering() {
    assert_eq!(dec_u64(0), "0");
    assert_eq!(dec_u64(7), "7");
    assert_eq!(dec_u64(10), "10");
    assert_eq!(dec_u64(99), "99");
    assert_eq!(dec_u64(100), "100");
    assert_eq!(dec_u64(12345), "12345");
    assert_eq!(dec_u64(u64::MAX), "18446744073709551615");
}

#[test]
fn nick_name_format() {
    assert_eq!(nick_name(0), "nick_0");
    assert_eq!(nick_name(9), "nick_9");
    assert_eq!(nick_name(10), "nick_10");
    assert_eq!(nick_name(99), "nick_99");
}

#[test]
fn nick_names_are_ordered_and_distinct() {
    let names = nick_names(GENERATED_NICK_COUNT);
    assert_eq!(names.len(), 100);
    assert_eq!(names[0], "nick_0");
    assert_eq!(names[1], "nick_1");
    assert_eq!(names[99], "nick_99");
    for i in 0..names.len() {
        for j in (i + 1)..names.len() {
            assert_ne!(names[i], names[j]);
        }
    }
}

#[test]
fn nick_report_line() {
    assert_eq!(nick_report("Emma"), "Nick name getting test: Emma");
    assert_eq!(nick_report(""), "Nick name getting test: ");
}

#[test]
fn elapsed_report_line() {
    assert_eq!(
        elapsed_report(100, 0, 5),
        "Elapsed time for 100 nick additions: 0.5s."
    );
    assert_eq!(
        elapsed_report(2, 61, 999),
        "Elapsed time for 2 nick additions: 61.999s."
    );
}

#[test]
fn input_is_echoed_to_the_buffer() {
    let r = respond(Event::Input {
        line: String::from("hello there"),
    });
    assert_eq!(r.buffer_lines, vec![String::from("hello there")]);
    assert!(r.core_lines.is_empty());
    assert!(r.bar_text.is_none());
}

#[test]
fn command_prints_data_then_arguments() {
    let r = respond(Event::Command {
        data: String::from("Hello rust command"),
        args: vec![String::from("first"), String::from("second")],
    });
    assert_eq!(
        r.buffer_lines,
        vec![
            String::from("Hello rust command"),
            String::from("first"),
            String::from("second"),
        ]
    );
    assert!(r.core_lines.is_empty());
    assert!(r.bar_text.is_none());
}

#[test]
fn command_without_arguments_prints_only_data() {
    let r = respond(Event::Command {
        data: String::from("Hello rust command"),
        args: Vec::new(),
    });
    assert_eq!(r.buffer_lines, vec![String::from("Hello rust command")]);
}

#[test]
fn buffer_close_prints_farewell() {
    let r = respond(Event::BufferClosed);
    assert!(r.buffer_lines.is_empty());
    assert_eq!(r.core_lines, vec![String::from("Closing buffer")]);
    assert!(r.bar_text.is_none());
}

#[test]
fn option_change_is_announced() {
    let r = respond(Event::OptionChanged);
    assert_eq!(r.core_lines, vec![String::from("Changing rust option")]);
}

#[test]
fn config_reload_is_announced() {
    let r = respond(Event::ConfigReloaded);
    assert_eq!(r.core_lines, vec![String::from("Reloaded config")]);
}

#[test]
fn bar_render_yields_the_item_text() {
    let r = respond(Event::BarRender);
    assert!(r.buffer_lines.is_empty());
    assert!(r.core_lines.is_empty());
    assert_eq!(r.bar_text, Some(String::from("rust/sample")));
}

#[test]
fn unload_prints_goodbye() {
    let r = respond(Event::Unloaded);
    assert_eq!(r.core_lines, vec![String::from("Bye rust")]);
}

#[test]
fn plan_names_every_registration() {
    let p = init_plan();
    assert_eq!(p.plugin_name, "rust_sample");
    assert_eq!(p.load_greeting, "Hello Rust!");
    assert_eq!(p.buffer_name, "Test buffer");
    assert_eq!(p.buffer_greeting, "Hello test buffer");
    assert_eq!(p.op_group.name, "operators");
    assert_eq!(p.op_group.color, "blue");
    assert!(p.op_group.visible);
    assert_eq!(p.op_nick.name, "Emma");
    assert_eq!(p.op_nick.color, "magenta");
    assert_eq!(p.op_nick.prefix, "&");
    assert_eq!(p.op_nick.prefix_color, "green");
    assert_eq!(p.generated_nicks.len(), 100);
    assert_eq!(p.generated_nicks[0], "nick_0");
    assert_eq!(p.generated_nicks[99], "nick_99");
    assert_eq!(p.command_name, "rustcommand");
    assert_eq!(p.command_data, "Hello rust command");
    assert_eq!(p.config_name, "rust_sample");
    assert_eq!(p.section_name, "sample_section");
    assert_eq!(p.option_name, "test_option");
    assert!(!p.option_default);
    assert_eq!(p.bar_item_name, "buffer_plugin");
}
