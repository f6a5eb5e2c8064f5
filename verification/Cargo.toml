[package]
name = "webxr_session"
version = "0.1.0"
edition = "2021"
publish = false

[dependencies]
wasm-bindgen = "0.2"
js-sys = "0.3"
wasm-bindgen-futures = "0.4"
futures = "0.3"
gl_matrix = "*"

[dependencies.web-sys]
version = "0.3"
features = [
    "console",
    "Window",
    "Document",
    "Element",
    "Node",
    "HtmlElement",
    "HtmlButtonElement",
    "HtmlCanvasElement",
    "Navigator",
    "Performance",
    "Response",
    "WebGl2RenderingContext",
    "WebGlProgram",
    "WebGlShader",
    "WebGlBuffer",
    "WebGlFramebuffer",
    "WebGlUniformLocation",
    "XrSystem",
    "XrSession",
    "XrSessionMode",
    "XrRenderState",
    "XrRenderStateInit",
    "XrWebGlLayer",
    "XrReferenceSpace",
    "XrReferenceSpaceType",
    "XrFrame",
    "XrViewerPose",
    "XrView",
    "XrViewport",
    "XrRigidTransform",
    "DomPointReadOnly",
]
