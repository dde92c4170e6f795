# epn_gui

A workbench for evolutionary path planning among static and moving obstacles.
The verified library (`src/`) holds its decision logic:

- `tabs`: which of the three views the top bar shows after each frame;
- `canvas`: the drawing canvas, where clicks add points to obstacle figures,
  close them, or place the start, the end and moving obstacles;
- `polygon`: closing an outline by repeating its first point;
- `browse`: what the generation browser and the single-individual browser
  show, the ranges of their sliders and the paths of their data files;
- `theme`: the colours of the browsers in the dark and the light theme.

`app/` is the egui front end: windows, widgets, JSON files, floating-point
geometry and drawing.
