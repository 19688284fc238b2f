# map_editor

The logic of a small 3D map editor, verified with Verus, and the egui/eframe
program around it.

- `src/` is the library. `asset` holds the asset registry (ids `asset_<n>`,
  asset types by extension, meshes by asset id), the file name / stem /
  extension of paths, and the choice of loader and of the mesh taken from a
  loaded file. `scene` is the scene graph. `editor` holds the editor state:
  the command queue, the open viewports, the dock layout (an
  `egui_dock::DockState` modelled by the multiset of its tabs) with its
  panel windows, the scene manager, tab titles and the text of each panel.
  `ui` holds the menu actions and the 3D viewport's input decisions and
  ground grid.
- `app/` is the program: window, menus, file dialogs, model file reading,
  OpenGL rendering and the floating-point camera.
- `tests/` exercises the library on concrete values.
