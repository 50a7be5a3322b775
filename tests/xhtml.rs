use x_syntax::xhtml::XHTML;

const HEADER: &str = "\n<!DOCTYPE html PUBLIC \"-//W3C//DTD XHTML 1.0 Transitional//EN\" \"http://www.w3.org/TR/xhtml1/DTD/xhtml1-transitional.dtd\">\n<html xmlns=\"http://www.w3.org/1999/xhtml\" xml:lang=\"en\">\n<head>\n<title>X Formatted file</title>\n</head>\n<body bgcolor=\"navy\" text=\"orange\" link=\"orange\" vlink=\"orange\">\n<font face=\"Courier New\">\n";
const FOOTER: &str = "\n</font>\n</body>\n</html>\n";

#[test]
fn empty_program_renders_frame_only() {
    assert_eq!(XHTML::new("").for_result(), format!("{}{}", HEADER, FOOTER));
}

#[test]
fn tokens_are_coloured_and_spaced() {
    let page = XHTML::new("int x;\n  y 1.5 #").for_result();
    let body = [
        "<font color=\"white\"><b>int</b></font>",
        " <font color=\"yellow\">x</font>",
        "<font color=\"white\"><b>;</b></font>",
        "<br />\n  <font color=\"yellow\">y</font>",
        " <font color=\"aqua\"><b>1.5</b></font>",
        " <font color=\"red\">#</font>",
    ]
    .join("");
    assert_eq!(page, format!("{}{}{}", HEADER, body, FOOTER));
}

#[test]
fn wide_indentation_uses_non_breaking_groups() {
    let page = XHTML::new("\n\n     a").for_result();
    let body = "<br />\n<br />\n&nbsp;&nbsp;&nbsp;&nbsp; <font color=\"yellow\">a</font>";
    assert_eq!(page, format!("{}{}{}", HEADER, body, FOOTER));
}
