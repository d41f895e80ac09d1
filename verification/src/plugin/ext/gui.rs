//! The GUI capability, by which a component's editor window is created,
//! sized, embedded and shown.

use crate::plugin::address::Address;
use crate::plugin::ext::{Extension, ExtensionCall};
use crate::plugin::instance::Plugin;
use crate::plugin::text::CText;
use clap_sys::ext::gui::{clap_plugin_gui, clap_window, CLAP_EXT_GUI};
use vstd::prelude::*;

verus! {

/// `clap_sys::ext::gui::clap_plugin_gui`, the function table of the GUI
/// capability. Nothing is known of what a value of it holds.
#[verifier::external_type_specification]
#[verifier::external_body]
pub struct ExPluginGui(clap_plugin_gui);

/// `clap_sys::ext::gui::clap_window`, which names a window of the platform.
/// Nothing is known of what a value of it holds; it is only passed on.
#[verifier::external_type_specification]
#[verifier::external_body]
pub struct ExWindow(clap_window);

/// Reads `clap_sys::ext::gui::CLAP_EXT_GUI`, the id of the GUI capability,
/// which that crate defines as the C string `"clap.gui"`.
#[verifier::external_body]
fn gui_id() -> (id: String)
    ensures
        id@ == "clap.gui"@,
{
    CLAP_EXT_GUI.to_string_lossy().into_owned()
}

/// The main-thread side of the GUI capability.
#[derive(Debug)]
pub struct Gui {
    gui: Address,
}

/// An entry of the GUI table together with its arguments.
///
/// Entries through which the component hands something back (a size, its
/// resize hints) take pointers to where it is to be written; those are for
/// the embedding program to supply and are not part of the request.
#[derive(Debug, Clone, Copy)]
pub enum GuiRequest<'a> {
    /// `is_api_supported(plugin, api, is_floating)`
    IsApiSupported { api: CText<'a>, is_floating: bool },
    /// `create(plugin, api, is_floating)`
    Create { api: CText<'a>, is_floating: bool },
    /// `destroy(plugin)`
    Destroy,
    /// `set_scale(plugin, scale)`, with the scale as the bits of a double.
    SetScale { scale_bits: u64 },
    /// `get_size(plugin, width, height)`
    GetSize,
    /// `can_resize(plugin)`
    CanResize,
    /// `get_resize_hints(plugin, hints)`
    GetResizeHints,
    /// `adjust_size(plugin, width, height)`, where both hold the size that
    /// is proposed to the component and receive the one it settles on.
    AdjustSize { width: u32, height: u32 },
    /// `set_size(plugin, width, height)`
    SetSize { width: u32, height: u32 },
    /// `set_parent(plugin, window)`
    SetParent { window: &'a clap_window },
    /// `set_transient(plugin, window)`
    SetTransient { window: &'a clap_window },
    /// `suggest_title(plugin, title)`
    SuggestTitle { title: CText<'a> },
    /// `show(plugin)`
    Show,
    /// `hide(plugin)`
    Hide,
}

impl View for Gui {
    type V = Address;

    closed spec fn view(&self) -> Address {
        self.gui
    }
}

impl<'a> Extension<&'a Plugin> for Gui {
    type Struct = clap_plugin_gui;

    open spec fn id() -> Seq<char> {
        "clap.gui"@
    }

    proof fn lemma_id_is_c_string() {
        reveal_strlit("clap.gui");
    }

    fn extension_id() -> (id: String) {
        gui_id()
    }

    fn new(extension_struct: Address) -> (extension: Gui) {
        Gui { gui: extension_struct }
    }
}

impl Gui {
    /// The call that `request` amounts to on `plugin`.
    pub open spec fn forwards<'a>(&self, plugin: &Plugin, request: GuiRequest<'a>) -> ExtensionCall<
        GuiRequest<'a>,
    > {
        ExtensionCall { table: self@, plugin: plugin.handle(), request }
    }

    fn forward<'a>(&self, plugin: &Plugin, request: GuiRequest<'a>) -> (call: ExtensionCall<
        GuiRequest<'a>,
    >)
        ensures
            call == self.forwards(plugin, request),
    {
        ExtensionCall { table: self.gui, plugin: plugin.handle(), request }
    }

    /// Asks whether the component can show its editor through the windowing
    /// API `api`, floating or embedded.
    pub fn is_api_supported<'a>(&self, plugin: &Plugin, api: CText<'a>, is_floating: bool) -> (call:
        ExtensionCall<GuiRequest<'a>>)
        ensures
            call == self.forwards(plugin, GuiRequest::IsApiSupported { api, is_floating }),
    {
        self.forward(plugin, GuiRequest::IsApiSupported { api, is_floating })
    }

    /// The windowing API that the component prefers.
    ///
    /// Known gap: the component is not asked. The answer is always the empty
    /// string, whatever the component would have said, and `is_floating` is
    /// left as it was.
    pub fn get_preferred_api(&self, plugin: &Plugin, is_floating: &mut bool) -> (api: String)
        ensures
            api@ == Seq::<char>::empty(),
            *final(is_floating) == *old(is_floating),
    {
        let api = String::new();
        api
    }

    /// Has the component create its editor for the windowing API `api`,
    /// floating or embedded.
    pub fn create<'a>(&self, plugin: &Plugin, api: CText<'a>, is_floating: bool) -> (call:
        ExtensionCall<GuiRequest<'a>>)
        ensures
            call == self.forwards(plugin, GuiRequest::Create { api, is_floating }),
    {
        self.forward(plugin, GuiRequest::Create { api, is_floating })
    }

    /// Has the component free everything that belongs to its editor.
    pub fn destroy(&self, plugin: &Plugin) -> (call: ExtensionCall<GuiRequest<'static>>)
        ensures
            call == self.forwards(plugin, GuiRequest::Destroy),
    {
        self.forward(plugin, GuiRequest::Destroy)
    }

    /// Sets the scaling factor of the editor, passed as the bits of a
    /// double.
    pub fn set_scale(&self, plugin: &Plugin, scale_bits: u64) -> (call: ExtensionCall<
        GuiRequest<'static>,
    >)
        ensures
            call == self.forwards(plugin, GuiRequest::SetScale { scale_bits }),
    {
        self.forward(plugin, GuiRequest::SetScale { scale_bits })
    }

    /// Asks for the current size of the editor.
    pub fn get_size(&self, plugin: &Plugin) -> (call: ExtensionCall<GuiRequest<'static>>)
        ensures
            call == self.forwards(plugin, GuiRequest::GetSize),
    {
        self.forward(plugin, GuiRequest::GetSize)
    }

    /// Asks whether the editor can be resized.
    pub fn can_resize(&self, plugin: &Plugin) -> (call: ExtensionCall<GuiRequest<'static>>)
        ensures
            call == self.forwards(plugin, GuiRequest::CanResize),
    {
        self.forward(plugin, GuiRequest::CanResize)
    }

    /// Asks how the editor may be resized.
    pub fn get_resize_hints(&self, plugin: &Plugin) -> (call: ExtensionCall<GuiRequest<'static>>)
        ensures
            call == self.forwards(plugin, GuiRequest::GetResizeHints),
    {
        self.forward(plugin, GuiRequest::GetResizeHints)
    }

    /// Proposes a size and asks for the nearest one that the editor can
    /// take.
    pub fn adjust_size(&self, plugin: &Plugin, width: u32, height: u32) -> (call: ExtensionCall<
        GuiRequest<'static>,
    >)
        ensures
            call == self.forwards(plugin, GuiRequest::AdjustSize { width, height }),
    {
        self.forward(plugin, GuiRequest::AdjustSize { width, height })
    }

    /// Sets the size of the editor.
    pub fn set_size(&self, plugin: &Plugin, width: u32, height: u32) -> (call: ExtensionCall<
        GuiRequest<'static>,
    >)
        ensures
            call == self.forwards(plugin, GuiRequest::SetSize { width, height }),
    {
        self.forward(plugin, GuiRequest::SetSize { width, height })
    }

    /// Embeds the editor into `window`.
    pub fn set_parent<'a>(&self, plugin: &Plugin, window: &'a clap_window) -> (call: ExtensionCall<
        GuiRequest<'a>,
    >)
        ensures
            call == self.forwards(plugin, GuiRequest::SetParent { window }),
    {
        self.forward(plugin, GuiRequest::SetParent { window })
    }

    /// Makes the floating editor stay above `window`.
    pub fn set_transient<'a>(&self, plugin: &Plugin, window: &'a clap_window) -> (call:
        ExtensionCall<GuiRequest<'a>>)
        ensures
            call == self.forwards(plugin, GuiRequest::SetTransient { window }),
    {
        self.forward(plugin, GuiRequest::SetTransient { window })
    }

    /// Suggests a title for the floating editor's window.
    pub fn suggest_title<'a>(&self, plugin: &Plugin, title: CText<'a>) -> (call: ExtensionCall<
        GuiRequest<'a>,
    >)
        ensures
            call == self.forwards(plugin, GuiRequest::SuggestTitle { title }),
    {
        self.forward(plugin, GuiRequest::SuggestTitle { title })
    }

    /// Shows the editor.
    pub fn show(&self, plugin: &Plugin) -> (call: ExtensionCall<GuiRequest<'static>>)
        ensures
            call == self.forwards(plugin, GuiRequest::Show),
    {
        self.forward(plugin, GuiRequest::Show)
    }

    /// Hides the editor.
    pub fn hide_gui(&self, plugin: &Plugin) -> (call: ExtensionCall<GuiRequest<'static>>)
        ensures
            call == self.forwards(plugin, GuiRequest::Hide),
    {
        self.forward(plugin, GuiRequest::Hide)
    }
}

} // verus!
