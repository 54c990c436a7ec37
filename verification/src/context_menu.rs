//! The context menu a page shows in place of a native one: the menu entries as
//! JSON, and the script that draws them.

use vstd::prelude::*;
use vstd::string::StringExecFns;

use crate::text::{decimal, escape_label, push_char, push_decimal, push_escaped, replace_all, replace_all_str};

verus! {

/// The script that draws the menu; `__ITEMS__`, `__X__` and `__Y__` stand for
/// the entries and the position in physical pixels.
pub const CONTEXT_MENU_JS: &'static str = r#"(function() {
  var existing = document.getElementById('__cef_context_menu');
  if (existing) existing.remove();
  var items = __ITEMS__;
  var menu = document.createElement('div');
  menu.id = '__cef_context_menu';
  menu.style.cssText = 'position:fixed;visibility:hidden;z-index:2147483647;background:#2b2b2b;border:1px solid #555;border-radius:6px;padding:4px 0;box-shadow:0 4px 12px rgba(0,0,0,0.4);font-family:sans-serif;font-size:13px;min-width:180px;user-select:none;';
  function sendResult(id) {
    menu.remove();
    document.removeEventListener('mousedown', outsideClick, true);
    document.removeEventListener('keydown', escHandler, true);
    window.ipc.postMessage('__cef_context_menu:' + id);
  }
  function outsideClick(e) {
    if (!menu.contains(e.target)) { sendResult(-1); }
  }
  function escHandler(e) {
    if (e.key === 'Escape') { sendResult(-1); }
  }
  items.forEach(function(item) {
    if (item.separator) {
      var sep = document.createElement('div');
      sep.style.cssText = 'height:1px;background:#555;margin:4px 0;';
      menu.appendChild(sep);
    } else {
      var el = document.createElement('div');
      el.textContent = item.label;
      el.style.cssText = 'padding:6px 24px;cursor:' + (item.enabled ? 'pointer' : 'default') + ';color:' + (item.enabled ? '#e0e0e0' : '#666') + ';border-radius:4px;margin:0 4px;';
      if (item.checked) { el.style.paddingLeft = '8px'; el.textContent = '\u2713 ' + item.label; }
      if (item.enabled) {
        el.onmouseenter = function() { el.style.background = '#3b3b3b'; };
        el.onmouseleave = function() { el.style.background = 'transparent'; };
        el.onclick = function(e) { e.stopPropagation(); sendResult(item.id); };
      }
      menu.appendChild(el);
    }
  });
  document.body.appendChild(menu);
  var dpr = window.devicePixelRatio || 1;
  var px = __X__ / dpr;
  var py = __Y__ / dpr;
  var vw = window.innerWidth;
  var vh = window.innerHeight;
  var mw = menu.offsetWidth;
  var mh = menu.offsetHeight;
  if (px + mw > vw) { px = vw - mw; }
  if (py + mh > vh) { py = vh - mh; }
  if (px < 0) { px = 0; }
  if (py < 0) { py = 0; }
  menu.style.left = px + 'px';
  menu.style.top = py + 'px';
  menu.style.visibility = 'visible';
  setTimeout(function() {
    document.addEventListener('mousedown', outsideClick, true);
    document.addEventListener('keydown', escHandler, true);
  }, 0);
})();
"#;

/// The kinds of entry a browser menu has.
#[derive(Clone, Copy, Debug, PartialEq, Eq, Structural)]
pub enum MenuItemKind {
    NoType,
    Command,
    Check,
    Radio,
    Separator,
    SubMenu,
}

/// One entry of the browser's context menu.
pub struct MenuEntry {
    pub kind: MenuItemKind,
    pub command_id: i32,
    pub label: String,
    /// The browser's enabled state; 1 means enabled.
    pub enabled: i32,
    /// The browser's checked state; 1 means checked.
    pub checked: i32,
}

/// `1` or `0` for a truth value.
pub open spec fn flag_text(b: bool) -> Seq<char> {
    if b { seq!['1'] } else { seq!['0'] }
}

/// The JSON object for one entry.
pub open spec fn entry_json(e: MenuEntry) -> Seq<char> {
    "{\"id\":"@ + decimal(e.command_id as int) + ",\"label\":\""@ + escape_label(e.label@)
        + "\",\"enabled\":"@ + flag_text(e.enabled == 1) + ",\"checked\":"@ + flag_text(
        e.checked == 1,
    ) + ",\"separator\":"@ + flag_text(e.kind == MenuItemKind::Separator) + "}"@
}

/// The JSON objects of the entries, separated by commas.
pub open spec fn entries_json(items: Seq<MenuEntry>) -> Seq<char>
    decreases items.len(),
{
    if items.len() == 0 {
        Seq::empty()
    } else if items.len() == 1 {
        entry_json(items[0])
    } else {
        entries_json(items.drop_last()) + seq![','] + entry_json(items.last())
    }
}

/// The entry that opens the developer tools.
pub open spec fn inspect_entry_json() -> Seq<char> {
    "{\"id\":-2,\"label\":\"Inspect\",\"enabled\":true,\"checked\":false,\"separator\":false}"@
}

/// The JSON array of the menu: the entries, then, with the developer tools
/// enabled, the entry that opens them.
pub open spec fn items_json(items: Seq<MenuEntry>, devtools_enabled: bool) -> Seq<char> {
    seq!['['] + entries_json(items) + (if devtools_enabled {
        (if items.len() > 0 { seq![','] } else { Seq::empty() }) + inspect_entry_json()
    } else {
        Seq::empty()
    }) + seq![']']
}

fn push_entry(out: &mut String, e: &MenuEntry)
    ensures
        final(out)@ == old(out)@ + entry_json(*e),
{
    out.append("{\"id\":");
    push_decimal(out, e.command_id);
    out.append(",\"label\":\"");
    push_escaped(out, e.label.as_str());
    out.append("\",\"enabled\":");
    push_char(out, if e.enabled == 1 { '1' } else { '0' });
    out.append(",\"checked\":");
    push_char(out, if e.checked == 1 { '1' } else { '0' });
    out.append(",\"separator\":");
    let separator = match e.kind {
        MenuItemKind::Separator => true,
        _ => false,
    };
    push_char(out, if separator { '1' } else { '0' });
    out.append("}");
    assert(final(out)@ =~= old(out)@ + entry_json(*e));
}

proof fn lemma_entries_json_step(items: Seq<MenuEntry>, i: int)
    requires
        0 <= i < items.len(),
    ensures
        entries_json(items.take(i + 1)) == if i == 0 {
            entry_json(items[0])
        } else {
            entries_json(items.take(i)) + seq![','] + entry_json(items[i])
        },
{
    let t = items.take(i + 1);
    assert(t.drop_last() =~= items.take(i));
    assert(t.last() == items[i]);
    if i == 0 {
        assert(t.len() == 1);
        assert(t[0] == items[0]);
    }
}

/// Builds the JSON array of the menu entries.
pub fn context_menu_items_json(items: &Vec<MenuEntry>, devtools_enabled: bool) -> (r: String)
    ensures
        r@ == items_json(items@, devtools_enabled),
{
    let mut out = String::new();
    push_char(&mut out, '[');
    assert(items@.take(0) =~= Seq::<MenuEntry>::empty());
    assert(out@ =~= seq!['['] + entries_json(items@.take(0)));
    let mut i: usize = 0;
    while i < items.len()
        invariant
            i <= items@.len(),
            out@ == seq!['['] + entries_json(items@.take(i as int)),
        decreases items@.len() - i,
    {
        if i > 0 {
            push_char(&mut out, ',');
        }
        push_entry(&mut out, &items[i]);
        proof {
            lemma_entries_json_step(items@, i as int);
            assert(out@ =~= seq!['['] + entries_json(items@.take(i + 1)));
        }
        i = i + 1;
    }
    assert(items@.take(items@.len() as int) =~= items@);
    if devtools_enabled {
        if items.len() > 0 {
            push_char(&mut out, ',');
        }
        out.append("{\"id\":-2,\"label\":\"Inspect\",\"enabled\":true,\"checked\":false,\"separator\":false}");
    }
    push_char(&mut out, ']');
    assert(out@ =~= items_json(items@, devtools_enabled));
    out
}

/// The menu JSON is an array: it opens with `[` and closes with `]`, is `[]`
/// for no entries without the developer tools.
pub proof fn lemma_items_json_is_array(items: Seq<MenuEntry>, devtools_enabled: bool)
    ensures
        items_json(items, devtools_enabled).len() >= 2,
        items_json(items, devtools_enabled)[0] == '[',
        items_json(items, devtools_enabled).last() == ']',
        items.len() == 0 && !devtools_enabled ==> items_json(items, devtools_enabled) == seq!['[', ']'],
{
    let body = entries_json(items) + (if devtools_enabled {
        (if items.len() > 0 { seq![','] } else { Seq::empty() }) + inspect_entry_json()
    } else {
        Seq::empty()
    });
    assert(items_json(items, devtools_enabled) =~= seq!['['] + body + seq![']']);
    if items.len() == 0 && !devtools_enabled {
        assert(entries_json(items) =~= Seq::<char>::empty());
        assert(items_json(items, devtools_enabled) =~= seq!['[', ']']);
    }
}

/// The script that shows the menu: the template with the entries, then the
/// position, put in for its placeholders, in that order.
pub open spec fn context_menu_script_for(items_json: Seq<char>, x: i32, y: i32) -> Seq<char> {
    replace_all(
        replace_all(
            replace_all(CONTEXT_MENU_JS@, "__ITEMS__"@, items_json),
            "__X__"@,
            decimal(x as int),
        ),
        "__Y__"@,
        decimal(y as int),
    )
}

/// Fills the menu script template with the entries and the position.
pub fn context_menu_script(items_json: &str, x: i32, y: i32) -> (r: String)
    ensures
        r@ == context_menu_script_for(items_json@, x, y),
{
    proof {
        reveal_strlit("__ITEMS__");
        reveal_strlit("__X__");
        reveal_strlit("__Y__");
    }
    let mut xs = String::new();
    push_decimal(&mut xs, x);
    let mut ys = String::new();
    push_decimal(&mut ys, y);
    assert(xs@ =~= decimal(x as int));
    assert(ys@ =~= decimal(y as int));
    let with_items = replace_all_str(CONTEXT_MENU_JS, "__ITEMS__", items_json);
    let with_x = replace_all_str(with_items.as_str(), "__X__", xs.as_str());
    replace_all_str(with_x.as_str(), "__Y__", ys.as_str())
}

} // verus!
