//! The fixed passages of the generated text.

use vstd::prelude::*;

verus! {

/// The comment at the head of a whole program.
pub const BANNER: &'static str =
    "// =============================================================================\n// Generated by egui RAD GUI Builder\n// https://github.com/timschmidt/egui-rad-builder\n// =============================================================================\n\n";

/// The head of a whole program that is written without comments.
pub const BANNER_SHORT: &'static str =
    "// --- generated by egui RAD GUI Builder ---\n";

/// The imports of a whole program.
pub const IMPORTS: &'static str =
    "use eframe::egui;\nuse egui_extras::DatePickerButton;\nuse chrono::NaiveDate;\n\n";

/// The declarations that a tree needs, as a whole program holds them.
pub const TREE_HELPER: &'static str =
    "#[derive(Clone)]\nstruct GenTreeNode { label: String, children: Vec<GenTreeNode> }\n\nfn gen_show_tree(ui: &mut egui::Ui, nodes: &[GenTreeNode]) {\n\tfor n in nodes {\n\t\tif n.children.is_empty() { ui.label(&n.label); }\n\t\telse { ui.collapsing(&n.label, |ui| gen_show_tree(ui, &n.children)); }\n\t}\n}\n\n";

/// The declarations that a tree needs, as the text for embedding holds
/// them: the same, without indentation.
pub const TREE_HELPER_FLAT: &'static str =
    "#[derive(Clone)]\nstruct GenTreeNode { label: String, children: Vec<GenTreeNode> }\n\nfn gen_show_tree(ui: &mut egui::Ui, nodes: &[GenTreeNode]) {\nfor n in nodes {\nif n.children.is_empty() { ui.label(&n.label); }\nelse { ui.collapsing(&n.label, |ui| gen_show_tree(ui, &n.children)); }\n}\n}\n\n";

/// The head of the state record, with the fields of the four panels.
pub const STATE_OPEN: &'static str =
    "struct GeneratedState {\n    enable_top: bool, enable_bottom: bool, enable_left: bool, enable_right: bool,\n";

/// The end of the state record.
pub const STATE_CLOSE: &'static str =
    "}\n\n";

/// The head of the first values of the state record.
pub const DEFAULT_OPEN: &'static str =
    "impl Default for GeneratedState {\n    fn default() -> Self {\n        Self {\n";

/// The end of the first values of the state record.
pub const DEFAULT_CLOSE: &'static str =
    "        }\n    }\n}\n\n";

/// The head of the routine that builds the interface in every frame.
pub const RENDER_OPEN: &'static str =
    "fn generated_ui(ctx: &egui::Context, state: &mut GeneratedState) {\n";

/// The end of a panel.
pub const PANEL_CLOSE: &'static str =
    "            });\n    }\n";

/// The head of the central panel.
pub const CENTRAL_OPEN: &'static str =
    "    egui::CentralPanel::default().show(ctx, |ui| {\n";

/// What follows the size of the canvas in the central panel.
pub const CANVAS_CLOSE: &'static str =
    "));\n        let _ = ui.allocate_painter(canvas.size(), egui::Sense::hover());\n";

/// The end of the central panel.
pub const CENTRAL_CLOSE: &'static str =
    "    });\n";

/// The comment above the application of a whole program.
pub const APP_BANNER: &'static str =
    "// =============================================================================\n// Application entry point\n// =============================================================================\n\n";

/// The application of a whole program: it holds the state and calls the
/// routine in every frame.
pub const APP: &'static str =
    "pub struct GeneratedApp {\nstate: GeneratedState,\n}\n\nimpl Default for GeneratedApp {\nfn default() -> Self {\nSelf { state: Default::default() }\n}\n}\n\nimpl eframe::App for GeneratedApp {\nfn update(&mut self, ctx: &egui::Context, _frame: &mut eframe::Frame) {\ngenerated_ui(ctx, &mut self.state);\n}\n}\n\nfn main() -> eframe::Result<()> {\nlet native_options = eframe::NativeOptions::default();\neframe::run_native(\n\"Generated UI\",\nnative_options,\nBox::new(|_cc| Ok(Box::new(GeneratedApp::default()))),\n)\n}\n";

/// The manifest of the generated program, between the marks of two files.
pub const CARGO_MANIFEST: &'static str =
    "// =============================================================================\n// FILE: Cargo.toml\n// =============================================================================\n[package]\nname = \"generated-ui\"\nversion = \"0.1.0\"\nedition = \"2021\"\n\n[dependencies]\neframe = \"0.33\"\negui = \"0.33\"\negui_extras = { version = \"0.33\", features = [\"chrono\"] }\nchrono = \"0.4\"\n\n// =============================================================================\n// FILE: src/main.rs\n// =============================================================================\n";

/// The comment at the head of the text for embedding.
pub const EMBED_NOTE: &'static str =
    "// UI function generated by egui RAD GUI Builder\n// Embed this in your existing application\n\n";

/// The comment above the state record in the text for embedding.
pub const STATE_NOTE: &'static str =
    "// Required state struct for the UI\n";

/// The comment above the routine in the text for embedding.
pub const CALL_NOTE: &'static str =
    "// Call this function from your eframe::App::update method:\n// generated_ui(ctx, &mut self.state);\n\n";

} // verus!
